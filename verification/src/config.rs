//! The immutable configuration tree: pages keyed by id, each holding ordered
//! buttons whose behavior either navigates to another page or plays a sound.
//!
//! The tree is produced once by an external importer and is assumed closed:
//! every page referenced by a navigate button exists. The controller never
//! mutates it.

use vstd::prelude::*;

verus! {

/// Identity of a configuration page. The importer derives it from a 128-bit
/// profile identifier; the controller treats it as opaque.
#[derive(Debug, Clone, Copy, PartialEq, Eq, Structural)]
pub struct PageId(pub u128);

/// How a sound is played and faded. `volume` is kept in the importer's raw
/// scale, where 50 is unity gain; fade lengths are in milliseconds.
#[derive(Debug, Clone, Copy)]
pub struct PlaySoundSettings {
    pub volume: u8,
    pub mode: PlaybackMode,
    pub fade_in: Option<u64>,
    pub fade_out: Option<u64>,
}

#[derive(Debug, Clone, Copy, PartialEq, Eq, Structural)]
pub enum PlaybackMode {
    PlayStop,
    PlayOverlap,
    LoopStop,
}

impl PlaybackMode {
    pub fn loops(&self) -> (r: bool)
        ensures
            r == (*self is LoopStop),
    {
        matches!(self, PlaybackMode::LoopStop)
    }

    pub fn overlaps(&self) -> (r: bool)
        ensures
            r == (*self is PlayOverlap),
    {
        matches!(self, PlaybackMode::PlayOverlap)
    }
}

/// Behavior of a configured button: navigate to a page, or play the sound at
/// a path with the given settings.
#[derive(Debug)]
pub enum ButtonBehavior {
    PushPage(PageId),
    PlaySound(String, PlaySoundSettings),
}

impl Clone for ButtonBehavior {
    fn clone(&self) -> (r: Self)
        ensures
            r == *self,
    {
        match self {
            ButtonBehavior::PushPage(id) => ButtonBehavior::PushPage(*id),
            ButtonBehavior::PlaySound(path, settings) => ButtonBehavior::PlaySound(
                path.clone(),
                *settings,
            ),
        }
    }
}

/// One configured button: a label and a behavior.
#[derive(Debug)]
pub struct Button {
    pub label: String,
    pub behavior: ButtonBehavior,
}

impl Clone for Button {
    fn clone(&self) -> (r: Self)
        ensures
            r == *self,
    {
        Button { label: self.label.clone(), behavior: self.behavior.clone() }
    }
}

/// One configuration page: a name and its ordered buttons.
#[derive(Debug)]
pub struct Page {
    pub name: String,
    pub buttons: Vec<Button>,
}

impl Clone for Page {
    fn clone(&self) -> (r: Self)
        ensures
            r.name == self.name,
            r.buttons@ == self.buttons@,
    {
        let mut buttons: Vec<Button> = Vec::new();
        let mut i: usize = 0;
        while i < self.buttons.len()
            invariant
                i <= self.buttons.len(),
                buttons@ == self.buttons@.take(i as int),
            decreases self.buttons.len() - i,
        {
            buttons.push(self.buttons[i].clone());
            proof {
                assert(buttons@ =~= self.buttons@.take(i + 1));
            }
            i += 1;
        }
        proof {
            assert(self.buttons@.take(self.buttons@.len() as int) =~= self.buttons@);
        }
        Page { name: self.name.clone(), buttons }
    }
}

/// The configuration tree: pages in import order, with unique ids, and the
/// id of the start page.
#[derive(Debug)]
pub struct Config {
    pub pages: Vec<(PageId, Page)>,
    pub start_page: PageId,
}

impl Config {
    pub open spec fn has_page(self, id: PageId) -> bool {
        exists|i: int| 0 <= i < self.pages@.len() && self.pages@[i].0 == id
    }

    /// The page stored under `id`.
    pub open spec fn page_of(self, id: PageId) -> Page {
        self.pages@[choose|i: int| 0 <= i < self.pages@.len() && self.pages@[i].0 == id].1
    }

    /// A behavior only ever targets pages that exist.
    pub open spec fn behavior_closed(self, b: ButtonBehavior) -> bool {
        match b {
            ButtonBehavior::PushPage(id) => self.has_page(id),
            ButtonBehavior::PlaySound(_, _) => true,
        }
    }

    /// The tree is closed and well-keyed: ids are unique, the start page
    /// exists, and every navigate button targets an existing page.
    pub open spec fn wf(self) -> bool {
        &&& forall|i: int, j: int|
            #![trigger self.pages@[i], self.pages@[j]]
            0 <= i < j < self.pages@.len() ==> self.pages@[i].0 != self.pages@[j].0
        &&& self.has_page(self.start_page)
        &&& forall|i: int, j: int|
            0 <= i < self.pages@.len() && 0 <= j < self.pages@[i].1.buttons@.len()
                ==> self.behavior_closed(#[trigger] self.pages@[i].1.buttons@[j].behavior)
    }

    /// Looks a page up by id; returns `None` exactly when the id is unknown.
    #[verifier::loop_isolation(false)]
    pub fn find_page(&self, id: PageId) -> (r: Option<&Page>)
        requires
            self.wf(),
        ensures
            match r {
                Some(p) => self.has_page(id) && *p == self.page_of(id),
                None => !self.has_page(id),
            },
    {
        let mut i: usize = 0;
        while i < self.pages.len()
            invariant
                i <= self.pages@.len(),
                forall|k: int| 0 <= k < i ==> self.pages@[k].0 != id,
            decreases self.pages@.len() - i,
        {
            if self.pages[i].0 == id {
                proof {
                    assert(self.pages@[i as int].0 == id);
                    let w = choose|k: int|
                        0 <= k < self.pages@.len() && self.pages@[k].0 == id;
                    if w < i {
                        assert(self.pages@[w].0 != id);
                    }
                    if i < w {
                        assert(self.pages@[i as int].0 != self.pages@[w].0);
                    }
                }
                return Some(&self.pages[i].1);
            }
            i += 1;
        }
        None
    }
}

} // verus!
