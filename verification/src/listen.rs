//! The windows on screen, and the window being watched.
//!
//! Querying the window system is left to the caller: it reports, for each window,
//! what the window system answered ([`WindowProbe`]), and for the watched window the
//! frame it captured. This module decides what is listed, which window is watched and
//! which part of its frame is kept.

use vstd::prelude::*;
use crate::frame::{crop_frame, cropped, RgbaImage};

verus! {

/// A window as shown to the user.
#[derive(Debug, Clone, PartialEq, Eq)]
pub struct Window {
    pub id: u32,
    pub title: String,
    pub app_name: String,
    pub width: u32,
    pub height: u32,
}

/// A [`Window`] as plain values.
pub struct WindowView {
    pub id: u32,
    pub title: Seq<char>,
    pub app_name: Seq<char>,
    pub width: u32,
    pub height: u32,
}

impl View for Window {
    type V = WindowView;

    open spec fn view(&self) -> WindowView {
        WindowView {
            id: self.id,
            title: self.title@,
            app_name: self.app_name@,
            width: self.width,
            height: self.height,
        }
    }
}

/// What the window system answered about one window: each property, or `None` where
/// asking for it failed.
pub struct WindowProbe {
    pub id: Option<u32>,
    pub title: Option<String>,
    pub app_name: Option<String>,
    pub width: Option<u32>,
    pub height: Option<u32>,
}

/// The text of an optional string, empty when there is none.
pub open spec fn text_or_empty(s: Option<String>) -> Seq<char> {
    match s {
        Some(t) => t@,
        None => Seq::empty(),
    }
}

/// The window a probe describes: none without an id; a missing title or application
/// name reads as empty, a missing size as zero.
pub open spec fn probed_window(p: WindowProbe) -> Option<WindowView> {
    match p.id {
        Some(id) => Some(
            WindowView {
                id,
                title: text_or_empty(p.title),
                app_name: text_or_empty(p.app_name),
                width: match p.width {
                    Some(v) => v,
                    None => 0,
                },
                height: match p.height {
                    Some(v) => v,
                    None => 0,
                },
            },
        ),
        None => None,
    }
}

/// The windows that a sequence of probes describes, in order, skipping those without
/// an id.
pub open spec fn probed_windows(ps: Seq<WindowProbe>) -> Seq<WindowView>
    decreases ps.len(),
{
    if ps.len() == 0 {
        Seq::empty()
    } else {
        let rest = probed_windows(ps.drop_last());
        match probed_window(ps.last()) {
            Some(w) => rest.push(w),
            None => rest,
        }
    }
}

/// How many probes carry an id.
pub open spec fn count_with_id(ps: Seq<WindowProbe>) -> nat
    decreases ps.len(),
{
    if ps.len() == 0 {
        0
    } else {
        count_with_id(ps.drop_last()) + if ps.last().id is Some { 1nat } else { 0nat }
    }
}

/// A probe with an id describes the window with that id; each property the window
/// system gave is taken as given, a missing title or application name reads as
/// empty and a missing size as zero. A probe without an id describes no window.
pub proof fn lemma_probed_window(p: WindowProbe)
    ensures
        probed_window(p) is Some <==> p.id is Some,
        p.id is Some ==> probed_window(p)->Some_0.id == p.id->Some_0,
        p.title is Some ==> probed_window(p) is Some ==> probed_window(p)->Some_0.title
            == p.title->Some_0@,
        p.title is None ==> probed_window(p) is Some ==> probed_window(p)->Some_0.title.len() == 0,
        p.app_name is Some ==> probed_window(p) is Some ==> probed_window(p)->Some_0.app_name
            == p.app_name->Some_0@,
        p.app_name is None ==> probed_window(p) is Some ==> probed_window(p)->Some_0.app_name.len()
            == 0,
        probed_window(p) is Some ==> probed_window(p)->Some_0.width == (match p.width {
            Some(v) => v,
            None => 0u32,
        }),
        probed_window(p) is Some ==> probed_window(p)->Some_0.height == (match p.height {
            Some(v) => v,
            None => 0u32,
        }),
{
}

/// Every probe with an id gives exactly one listed window, in the probes' order:
/// there are as many windows as probes with an id, and the window of the probe at `i`
/// comes after those of the probes with an id before it.
pub proof fn lemma_one_window_per_id(ps: Seq<WindowProbe>)
    ensures
        probed_windows(ps).len() == count_with_id(ps),
        forall|i: int|
            0 <= i < ps.len() && (#[trigger] ps[i]).id is Some ==> probed_windows(ps)[count_with_id(
                ps.take(i),
            ) as int] == probed_window(ps[i])->Some_0,
    decreases ps.len(),
{
    if ps.len() > 0 {
        let rest = ps.drop_last();
        lemma_one_window_per_id(rest);
        assert forall|i: int| 0 <= i < ps.len() && (#[trigger] ps[i]).id is Some implies probed_windows(
            ps,
        )[count_with_id(ps.take(i)) as int] == probed_window(ps[i])->Some_0 by {
            if i < ps.len() - 1 {
                assert(ps.take(i) =~= rest.take(i));
                assert(rest[i] == ps[i]);
                lemma_count_with_id_prefix(rest, i);
            } else {
                assert(ps.take(i) =~= rest);
            }
        }
    }
}

proof fn lemma_count_with_id_prefix(ps: Seq<WindowProbe>, i: int)
    requires
        0 <= i < ps.len(),
        ps[i].id is Some,
    ensures
        count_with_id(ps.take(i)) < count_with_id(ps),
    decreases ps.len(),
{
    if i < ps.len() - 1 {
        assert(ps.drop_last().take(i) =~= ps.take(i));
        lemma_count_with_id_prefix(ps.drop_last(), i);
    } else {
        assert(ps.take(i) =~= ps.drop_last());
    }
}

/// The first candidate with an id is well defined: at most one index is the first
/// with that id, it reported that id, and one exists whenever some candidate reported
/// the id.
pub proof fn lemma_first_with_id<W>(cs: Seq<WindowCandidate<W>>, id: u32)
    ensures
        forall|i: int, j: int|
            first_with_id(cs, id, i) && first_with_id(cs, id, j) ==> i == j,
        forall|i: int| first_with_id(cs, id, i) ==> 0 <= i < cs.len() && cs[i].id == Some(id),
        (exists|k: int| 0 <= k < cs.len() && cs[k].id == Some(id)) ==> exists|i: int|
            first_with_id(cs, id, i),
{
    if exists|k: int| 0 <= k < cs.len() && cs[k].id == Some(id) {
        let k = choose|k: int| 0 <= k < cs.len() && cs[k].id == Some(id);
        lemma_first_exists(cs, id, k);
    }
    assert forall|i: int, j: int| first_with_id(cs, id, i) && first_with_id(cs, id, j) implies i
        == j by {
        if i < j {
            assert(cs[i].id != Some(id));
        } else if j < i {
            assert(cs[j].id != Some(id));
        }
    }
}

proof fn lemma_first_exists<W>(cs: Seq<WindowCandidate<W>>, id: u32, k: int)
    requires
        0 <= k < cs.len(),
        cs[k].id == Some(id),
    ensures
        exists|i: int| first_with_id(cs, id, i),
    decreases k,
{
    if exists|j: int| 0 <= j < k && cs[j].id == Some(id) {
        let j = choose|j: int| 0 <= j < k && cs[j].id == Some(id);
        lemma_first_exists(cs, id, j);
    } else {
        assert(first_with_id(cs, id, k));
    }
}

/// The views of a vector of windows.
pub open spec fn window_views(ws: Seq<Window>) -> Seq<WindowView> {
    ws.map_values(|w: Window| w@)
}

fn text_or_default(s: &Option<String>) -> (r: String)
    ensures
        r@ == text_or_empty(*s),
{
    match s {
        Some(t) => t.clone(),
        None => String::new(),
    }
}

impl Window {
    /// The window a probe describes, or `None` when the window system gave no id.
    pub fn try_new(win: &WindowProbe) -> (r: Option<Self>)
        ensures
            match r {
                Some(w) => probed_window(*win) == Some(w@),
                None => probed_window(*win) is None,
            },
    {
        let id: u32 = match win.id {
            Some(id) => id,
            None => return None,
        };
        let title = text_or_default(&win.title);
        let app_name = text_or_default(&win.app_name);
        let width: u32 = match win.width {
            Some(v) => v,
            None => 0,
        };
        let height: u32 = match win.height {
            Some(v) => v,
            None => 0,
        };
        Some(Window { id, title, app_name, width, height })
    }
}

/// The windows to offer the user, from what listing the windows gave: the listing's
/// error text behind "获取窗口失败: " when it failed, "no window" when it was empty,
/// and otherwise every window that has an id, in order.
pub fn list_windows(listed: Result<Vec<WindowProbe>, String>) -> (r: Result<Vec<Window>, String>)
    ensures
        match listed {
            Err(e) => r matches Err(m) && m@ == "获取窗口失败: "@ + e@,
            Ok(ps) => if ps@.len() == 0 {
                r matches Err(m) && m@ == "no window"@
            } else {
                r matches Ok(ws) && window_views(ws@) == probed_windows(ps@)
            },
        },
{
    let probes = match listed {
        Err(e) => {
            return Err(String::from_str("获取窗口失败: ").concat(e.as_str()));
        },
        Ok(ps) => ps,
    };
    if probes.len() == 0 {
        return Err(String::from_str("no window"));
    }
    let mut result: Vec<Window> = Vec::new();
    for i in 0..probes.len()
        invariant
            window_views(result@) == probed_windows(probes@.take(i as int)),
    {
        proof {
            assert(probes@.take(i + 1).drop_last() =~= probes@.take(i as int));
            assert(probes@.take(i + 1).last() == probes@[i as int]);
        }
        if let Some(w) = Window::try_new(&probes[i]) {
            result.push(w);
            assert(window_views(result@) =~= probed_windows(probes@.take(i + 1)));
        } else {
            assert(window_views(result@) =~= probed_windows(probes@.take(i + 1)));
        }
    }
    assert(probes@.take(probes@.len() as int) =~= probes@);
    Ok(result)
}

/// A window as the window system listed it, with the id it reported, if any.
pub struct WindowCandidate<W> {
    pub id: Option<u32>,
    pub window: W,
}

/// The window being watched, and the part of its frame that holds the board: the
/// `w` by `h` rectangle at column `x`, row `y`. While `w` or `h` is zero the whole
/// frame is kept.
pub struct ListenWindow<W> {
    window: W,
    x: u32,
    y: u32,
    w: u32,
    h: u32,
}

/// Whether `i` is the index of the first candidate that reported the id `id`.
pub open spec fn first_with_id<W>(cs: Seq<WindowCandidate<W>>, id: u32, i: int) -> bool {
    &&& 0 <= i < cs.len()
    &&& cs[i].id == Some(id)
    &&& forall|j: int| 0 <= j < i ==> cs[j].id != Some(id)
}

impl<W> ListenWindow<W> {
    /// The watched window.
    pub closed spec fn handle(&self) -> W {
        self.window
    }

    /// The rectangle kept from each frame, as (x, y, w, h).
    pub closed spec fn bound(&self) -> (u32, u32, u32, u32) {
        (self.x, self.y, self.w, self.h)
    }

    /// Watches the first listed window whose id is `target`'s, keeping whole frames.
    /// `None` when listing the windows failed or no window has that id.
    pub fn new(target: &Window, windows: Option<Vec<WindowCandidate<W>>>, _w: usize, _h: usize) -> (r:
        Option<Self>)
        ensures
            match windows {
                None => r is None,
                Some(cs) => match r {
                    None => forall|i: int| 0 <= i < cs@.len() ==> cs@[i].id != Some(target.id),
                    Some(lw) => exists|i: int|
                        #![trigger first_with_id(cs@, target.id, i)]
                        first_with_id(cs@, target.id, i) && lw.handle() == cs@[i].window
                            && lw.bound() == (0u32, 0u32, 0u32, 0u32),
                },
            },
    {
        let mut cs = match windows {
            None => return None,
            Some(cs) => cs,
        };
        let mut i: usize = 0;
        while i < cs.len()
            invariant
                0 <= i <= cs@.len(),
                windows == Some(cs),
                forall|j: int| 0 <= j < i ==> cs@[j].id != Some(target.id),
            decreases cs@.len() - i,
        {
            let found = match cs[i].id {
                Some(id) => id == target.id,
                None => false,
            };
            if found {
                let ghost before = cs@;
                let c = cs.remove(i);
                let lw = ListenWindow { window: c.window, x: 0, y: 0, w: 0, h: 0 };
                assert(first_with_id(before, target.id, i as int));
                return Some(lw);
            }
            i = i + 1;
        }
        None
    }

    /// The watched window, to capture it.
    pub fn window(&self) -> (r: &W)
        ensures
            *r == self.handle(),
    {
        &self.window
    }

    /// The rectangle kept from each frame, as (x, y, w, h).
    pub fn sub_bound(&self) -> (r: (u32, u32, u32, u32))
        ensures
            r == self.bound(),
    {
        (self.x, self.y, self.w, self.h)
    }

    /// Keeps, from now on, the `w` by `h` rectangle at column `x`, row `y` of each
    /// frame; a zero `w` or `h` keeps whole frames.
    pub fn set_sub_bound(&mut self, x: u32, y: u32, w: u32, h: u32)
        ensures
            final(self).handle() == old(self).handle(),
            final(self).bound() == (x, y, w, h),
    {
        self.x = x;
        self.y = y;
        self.w = w;
        self.h = h;
    }

    /// The board part of a captured frame: `None` when the capture failed, or when a
    /// rectangle is set and does not fit in the frame; the whole frame when no
    /// rectangle is set; otherwise the rectangle's pixels.
    pub fn capture(&self, shot: Option<RgbaImage>) -> (r: Option<RgbaImage>)
        requires
            shot matches Some(pic) ==> pic.wf() && (self.bound().2 > 0 && self.bound().3 > 0 ==> (
            self.bound().0 + self.bound().2 <= u32::MAX && (self.bound().0 + self.bound().2
                <= pic.width ==> self.bound().1 + self.bound().3 <= u32::MAX))),
        ensures
            match shot {
                None => r is None,
                Some(pic) => {
                    let (x, y, w, h) = self.bound();
                    if w > 0 && h > 0 {
                        if x + w <= pic.width && y + h <= pic.height {
                            r matches Some(out) && out.width == w && out.height == h
                                && out.data@ == cropped(pic.data@, pic.width as int, x as int, y as int, w as int, h as int)
                        } else {
                            r is None
                        }
                    } else {
                        r == Some(pic)
                    }
                },
            },
    {
        let pic = match shot {
            None => return None,
            Some(pic) => pic,
        };
        if self.w > 0 && self.h > 0 {
            let img_w: u32 = pic.width;
            let img_h: u32 = pic.height;
            if self.x + self.w <= img_w && self.y + self.h <= img_h {
                Some(crop_frame(&pic, self.x, self.y, self.w, self.h))
            } else {
                None
            }
        } else {
            Some(pic)
        }
    }
}

} // verus!
