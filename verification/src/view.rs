//! Navigation frames and the playing set.
//!
//! A `View` is one frame of the never-empty view stack: a library page or the
//! volume-control screen, plus a scroll offset. The `PlayingView` is the
//! insertion-ordered set of buttons bound to currently-advancing tracks,
//! with its own rotation offset.

use vstd::prelude::*;
use vstd::view::View as _;
use crate::config::PageId;

verus! {

#[derive(Debug, Clone, Copy)]
pub enum ViewType {
    LibraryPage(PageId),
    VolumeControl,
}

/// One navigation frame: which screen, plus a scroll offset into it.
#[derive(Debug, Clone, Copy)]
pub struct View {
    pub view_type: ViewType,
    pub offset: usize,
}

impl View {
    /// A fresh frame for a library page.
    pub fn new(page_id: PageId) -> (v: View)
        ensures
            v.view_type == ViewType::LibraryPage(page_id),
            v.offset == 0,
    {
        View { view_type: ViewType::LibraryPage(page_id), offset: 0 }
    }

    /// A fresh frame for the volume-control screen.
    pub fn new_volume_control() -> (v: View)
        ensures
            v.view_type == ViewType::VolumeControl,
            v.offset == 0,
    {
        View { view_type: ViewType::VolumeControl, offset: 0 }
    }

    pub open spec fn spec_page_id(self) -> Option<PageId> {
        match self.view_type {
            ViewType::LibraryPage(id) => Some(id),
            ViewType::VolumeControl => None,
        }
    }

    /// The library page shown by this frame, if it is one.
    pub fn page_id(&self) -> (r: Option<PageId>)
        ensures
            r == self.spec_page_id(),
    {
        match &self.view_type {
            ViewType::LibraryPage(id) => Some(*id),
            ViewType::VolumeControl => None,
        }
    }

    pub fn is_volume_control(&self) -> (r: bool)
        ensures
            r == (self.view_type is VolumeControl),
    {
        matches!(self.view_type, ViewType::VolumeControl)
    }
}

/// Pushing a navigation frame.
pub open spec fn push_views(stack: Seq<View>, v: View) -> Seq<View> {
    stack.push(v)
}

/// Popping a navigation frame: a no-op at the home frame.
pub open spec fn pop_views(stack: Seq<View>) -> Seq<View> {
    if stack.len() > 1 {
        stack.drop_last()
    } else {
        stack
    }
}

/// Pushing a frame and then popping restores the exact prior stack — in
/// particular the prior top frame's page and offset.
pub proof fn lemma_push_then_pop(stack: Seq<View>, v: View)
    requires
        stack.len() >= 1,
    ensures
        pop_views(push_views(stack, v)) == stack,
{
    assert(push_views(stack, v).drop_last() =~= stack);
}

/// The next scroll offset after advancing by `advance` over a list of length
/// `len`: wraps to 0 once the end is reached.
pub open spec fn rotate_offset(off: nat, advance: nat, len: nat) -> nat {
    if off + advance >= len {
        0
    } else {
        off + advance
    }
}

/// Once the offset has reached the end of the list, rotating wraps it back
/// to 0. In particular the playing set's offset wraps to 0 once it reaches
/// the set's length.
pub proof fn lemma_rotate_wraps(off: nat, advance: nat, len: nat)
    requires
        off + advance >= len,
    ensures
        rotate_offset(off, advance, len) == 0,
{
}

/// A rotation on a page whose button list fits in the content region
/// returns the offset to 0, whatever the displayed-button estimate was.
pub proof fn lemma_rotate_fits_content(off: nat, n_content: nat, n_displayed: nat, len: nat)
    requires
        len <= n_content,
    ensures
        rotate_offset(
            off,
            if n_content >= n_displayed {
                n_content
            } else {
                n_displayed
            },
            len,
        ) == 0,
{
}

/// Executable counterpart of [`rotate_offset`]; total for every offset.
pub fn rotate_offset_exec(off: usize, advance: usize, len: usize) -> (r: usize)
    ensures
        r == rotate_offset(off as nat, advance as nat, len as nat),
{
    if advance >= len || off >= len - advance {
        0
    } else {
        off + advance
    }
}

/// The playing set after one state report for `button`: advancing inserts
/// it unless present; not advancing removes it if present.
pub open spec fn playing_after(s: Seq<usize>, button: usize, playing: bool) -> Seq<usize> {
    if playing {
        if s.contains(button) {
            s
        } else {
            s.push(button)
        }
    } else {
        s.remove_value(button)
    }
}

/// A transition to advancing adds exactly one entry, at the end.
pub proof fn lemma_playing_add_exactly_one(s: Seq<usize>, button: usize)
    requires
        !s.contains(button),
    ensures
        playing_after(s, button, true) == s.push(button),
        playing_after(s, button, true).len() == s.len() + 1,
        playing_after(s, button, true).contains(button),
{
    assert(s.push(button)[s.len() as int] == button);
}

/// Repeated advancing reports do not duplicate the entry: one more report
/// after the first changes nothing.
pub proof fn lemma_playing_add_idempotent(s: Seq<usize>, button: usize)
    ensures
        playing_after(playing_after(s, button, true), button, true) == playing_after(
            s,
            button,
            true,
        ),
{
    if !s.contains(button) {
        assert(s.push(button)[s.len() as int] == button);
    }
}

/// A transition to not advancing removes the entry: for a duplicate-free
/// set that holds the button, the result is one shorter and no longer
/// holds it, and a repeated stop report changes nothing more.
pub proof fn lemma_playing_remove(s: Seq<usize>, button: usize)
    requires
        forall|i: int, j: int| 0 <= i < j < s.len() ==> s[i] != s[j],
        s.contains(button),
    ensures
        playing_after(s, button, false).len() == s.len() - 1,
        !playing_after(s, button, false).contains(button),
        playing_after(playing_after(s, button, false), button, false) == playing_after(
            s,
            button,
            false,
        ),
{
    s.index_of_first_ensures(button);
    let idx = s.index_of_first(button).unwrap();
    let post = s.remove(idx);
    assert(post.len() == s.len() - 1);
    assert forall|a: int| 0 <= a < post.len() implies post[a] != button by {
        let oa: int = if a < idx {
            a
        } else {
            a + 1
        };
        assert(post[a] == s[oa]);
        if oa != idx {
            assert(s[idx] == button);
        }
    }
    if post.contains(button) {
        let w = choose|w: int| 0 <= w < post.len() && post[w] == button;
        assert(post[w] != button);
    }
    post.index_of_first_ensures(button);
    assert(playing_after(post, button, false) == post);
}

/// The insertion-ordered collection of buttons (arena indices) bound to
/// currently-advancing tracks, plus an independent rotation offset.
#[derive(Debug)]
pub struct PlayingView {
    pub buttons: Vec<usize>,
    pub offset: usize,
}

impl PlayingView {
    /// Membership bookkeeping never holds a button twice.
    pub open spec fn wf(self) -> bool {
        forall|i: int, j: int|
            0 <= i < j < self.buttons@.len() ==> self.buttons@[i] != self.buttons@[j]
    }

    pub fn new() -> (r: PlayingView)
        ensures
            r.wf(),
            r.buttons@ == Seq::<usize>::empty(),
            r.offset == 0,
    {
        PlayingView { buttons: Vec::new(), offset: 0 }
    }

    /// Records the latest observed advancing state of `button`'s track and
    /// reports whether membership changed.
    ///
    /// A transition to advancing adds the button exactly once; repeated
    /// advancing notifications are idempotent. A transition to not advancing
    /// removes it; repeated stop notifications are idempotent.
    #[verifier::loop_isolation(false)]
    pub fn update_playing(&mut self, button: usize, playing: bool) -> (changed: bool)
        requires
            old(self).wf(),
        ensures
            final(self).wf(),
            final(self).offset == old(self).offset,
            changed == (playing != old(self).buttons@.contains(button)),
            final(self).buttons@ == playing_after(old(self).buttons@, button, playing),
            final(self).buttons@.contains(button) == playing,
            playing && !old(self).buttons@.contains(button) ==> final(self).buttons@
                == old(self).buttons@.push(button),
            !playing && old(self).buttons@.contains(button) ==> final(self).buttons@
                == old(self).buttons@.remove_value(button),
            !changed ==> *final(self) == *old(self),
            changed ==> final(self).buttons@.len() as int == if playing {
                old(self).buttons@.len() as int + 1
            } else {
                old(self).buttons@.len() as int - 1
            },
            forall|x: usize|
                x != button ==> final(self).buttons@.contains(x) == old(
                    self,
                ).buttons@.contains(x),
            forall|x: usize|
                final(self).buttons@.contains(x) ==> old(self).buttons@.contains(x) || x
                    == button,
    {
        let currently_in_playing = self.contains(button);
        if playing && !currently_in_playing {
            self.buttons.push(button);
            proof {
                assert(self.buttons@[old(self).buttons@.len() as int] == button);
                assert forall|x: usize|
                    x != button implies self.buttons@.contains(x) == old(
                    self,
                ).buttons@.contains(x) by {
                    if old(self).buttons@.contains(x) {
                        let w = choose|w: int|
                            0 <= w < old(self).buttons@.len() && old(self).buttons@[w] == x;
                        assert(self.buttons@[w] == x);
                    }
                    if self.buttons@.contains(x) {
                        let w = choose|w: int|
                            0 <= w < self.buttons@.len() && self.buttons@[w] == x;
                        if w < old(self).buttons@.len() {
                            assert(old(self).buttons@[w] == x);
                        }
                    }
                }
            }
            true
        } else if !playing && currently_in_playing {
            let idx = self.index_of(button);
            self.buttons.remove(idx);
            proof {
                let pre = old(self).buttons@;
                let post = self.buttons@;
                assert(post == pre.remove_value(button));
                assert forall|a: int, b: int| 0 <= a < b < post.len() implies post[a]
                    != post[b] by {
                    let oa: int = if a < idx { a } else { a + 1 };
                    let ob: int = if b < idx { b } else { b + 1 };
                    assert(post[a] == pre[oa]);
                    assert(post[b] == pre[ob]);
                }
                assert forall|a: int| 0 <= a < post.len() implies post[a] != button by {
                    let oa: int = if a < idx { a } else { a + 1 };
                    assert(post[a] == pre[oa]);
                    if oa != idx as int {
                        assert(pre[idx as int] == button);
                    }
                }
                assert forall|x: usize|
                    x != button implies post.contains(x) == pre.contains(x) by {
                    if pre.contains(x) {
                        let w = choose|w: int| 0 <= w < pre.len() && pre[w] == x;
                        if w < idx {
                            assert(post[w] == x);
                        } else {
                            assert(pre[idx as int] == button);
                            assert(post[w - 1] == x);
                        }
                    }
                    if post.contains(x) {
                        let w = choose|w: int| 0 <= w < post.len() && post[w] == x;
                        let ow: int = if w < idx { w } else { w + 1 };
                        assert(pre[ow] == x);
                    }
                }
            }
            true
        } else {
            proof {
                if !playing {
                    old(self).buttons@.index_of_first_ensures(button);
                }
            }
            false
        }
    }

    /// Whether `button` is in the playing set.
    pub fn contains(&self, button: usize) -> (r: bool)
        ensures
            r == self.buttons@.contains(button),
    {
        let mut i: usize = 0;
        while i < self.buttons.len()
            invariant
                i <= self.buttons@.len(),
                forall|k: int| 0 <= k < i ==> self.buttons@[k] != button,
            decreases self.buttons@.len() - i,
        {
            if self.buttons[i] == button {
                return true;
            }
            i += 1;
        }
        false
    }

    /// Index of the first occurrence of `button`.
    fn index_of(&self, button: usize) -> (r: usize)
        requires
            self.buttons@.contains(button),
        ensures
            self.buttons@.index_of_first(button) == Some(r as int),
            0 <= r < self.buttons@.len(),
            self.buttons@[r as int] == button,
    {
        let n = self.buttons.len();
        let mut i: usize = 0;
        loop
            invariant
                n == self.buttons@.len(),
                i <= self.buttons@.len(),
                self.buttons@.contains(button),
                forall|k: int| 0 <= k < i ==> self.buttons@[k] != button,
            decreases self.buttons@.len() - i,
        {
            proof {
                if i >= self.buttons@.len() {
                    let w = choose|k: int|
                        0 <= k < self.buttons@.len() && self.buttons@[k] == button;
                    assert(self.buttons@[w] != button);
                }
                assert(i < self.buttons@.len());
            }
            if self.buttons[i] == button {
                proof {
                    self.buttons@.index_of_first_ensures(button);
                    let f = self.buttons@.index_of_first(button).unwrap();
                    assert(self.buttons@[f] == button);
                    if f < i {
                        assert(self.buttons@[f] != button);
                    }
                }
                return i;
            }
            i += 1;
        }
    }
}

} // verus!
