//! The controller: a single actor owning the navigation stack, the library
//! cache, the playing set and the track table.
//!
//! Every handler is a pure state transition: it consumes one event, mutates
//! the deck, and returns the display and audio commands to emit. The event
//! loop that feeds it lives outside the library.

use vstd::prelude::*;
use vstd::view::View as _;
use vstd::pervasive::VecAdditionalExecFns;
use crate::btn::{BtnInvokeStatus, Button, ButtonBehavior, ButtonData, ButtonRef};
use crate::config::{self, Config, Page, PageId, PlaySoundSettings};
use crate::geometry::Geometry;
use crate::iface::{AudioCommand, AudioEvent, Track, UiCommand, UiEvent};
use crate::layout::{
    displayed_count, layout_page, layout_volume_control_page, lib_grid_ok, min_int, vol_grid_ok,
};
use crate::text::{dec, dec_spec};
use crate::view::{
    pop_views, push_views, rotate_offset, rotate_offset_exec, PlayingView, View, ViewType,
};

verus! {

/// One cache entry: the ordered semantic buttons (arena indices) built for a
/// page id. Built once; the same indices are returned on every later visit.
pub struct LibraryCategoryState {
    pub id: PageId,
    pub buttons: Vec<usize>,
}

/// One registered track: its sound path and settings, the arena index of the
/// button bound to it, and the last playback state the audio engine
/// reported.
pub struct TrackEntry {
    pub path: String,
    pub settings: PlaySoundSettings,
    pub button: usize,
    pub advancing: bool,
}

/// The controller state.
pub struct NoiseDeck {
    pub geo: Geometry,
    pub config: Config,
    /// The button arena: every library or volume button lives here, and its
    /// index is its identity.
    pub buttons: Vec<Button>,
    pub library: Vec<LibraryCategoryState>,
    pub tracks: Vec<TrackEntry>,
    pub view_stack: Vec<View>,
    pub playing: PlayingView,
    pub vol_up: usize,
    pub vol_down: usize,
    /// Global volume in whole decibels relative to unity.
    pub global_db: i64,
}

impl NoiseDeck {
    /// A navigation frame only ever shows pages that exist.
    pub open spec fn view_ok(self, v: View) -> bool {
        match v.view_type {
            ViewType::LibraryPage(id) => self.config.has_page(id),
            ViewType::VolumeControl => true,
        }
    }

    /// A behavior only ever targets pages that exist.
    pub open spec fn behavior_ok(self, b: ButtonBehavior) -> bool {
        match b {
            ButtonBehavior::Push(id) => self.config.has_page(id),
            ButtonBehavior::Goto(id) => self.config.has_page(id),
            _ => true,
        }
    }

    pub open spec fn behavior_opt_ok(self, b: Option<ButtonBehavior>) -> bool {
        match b {
            Some(x) => self.behavior_ok(x),
            None => true,
        }
    }

    /// A button's behaviors target existing pages and its track link points
    /// into the track table.
    pub open spec fn button_ok(self, b: Button) -> bool {
        &&& self.behavior_opt_ok(b.on_tap)
        &&& self.behavior_opt_ok(b.on_hold)
        &&& match b.track {
            Some(t) => t < self.tracks@.len(),
            None => true,
        }
    }

    /// The controller invariant: every handler preserves it.
    pub open spec fn wf(self) -> bool {
        &&& self.geo.wf()
        &&& self.config.wf()
        &&& 1 <= self.view_stack@.len()
        &&& forall|i: int|
            0 <= i < self.view_stack@.len() ==> self.view_ok(#[trigger] self.view_stack@[i])
        &&& self.playing.wf()
        &&& forall|i: int|
            0 <= i < self.playing.buttons@.len() ==> #[trigger] self.playing.buttons@[i]
                < self.buttons@.len()
        &&& self.vol_up < self.buttons@.len()
        &&& self.vol_down < self.buttons@.len()
        &&& self.vol_up != self.vol_down
        &&& self.buttons@[self.vol_up as int].data.label@ == "Vol +"@
        &&& self.buttons@[self.vol_down as int].data.label@ == "Vol -"@
        &&& -VOLUME_DB_LIMIT <= self.global_db <= VOLUME_DB_LIMIT
        &&& forall|i: int, j: int|
            #![trigger self.library@[i], self.library@[j]]
            0 <= i < j < self.library@.len() ==> self.library@[i].id != self.library@[j].id
        &&& forall|i: int, j: int|
            0 <= i < self.library@.len() && 0 <= j < self.library@[i].buttons@.len()
                ==> #[trigger] self.library@[i].buttons@[j] < self.buttons@.len()
        &&& forall|t: int|
            0 <= t < self.tracks@.len() ==> #[trigger] self.tracks@[t].button < self.buttons@.len()
        &&& forall|b: int|
            0 <= b < self.buttons@.len() ==> self.button_ok(#[trigger] self.buttons@[b])
    }

    /// The top navigation frame.
    pub open spec fn top_view(self) -> View {
        self.view_stack@.last()
    }

    pub open spec fn has_category(self, id: PageId) -> bool {
        exists|i: int| 0 <= i < self.library@.len() && self.library@[i].id == id
    }

    pub open spec fn category_index(self, id: PageId) -> int {
        choose|i: int| 0 <= i < self.library@.len() && self.library@[i].id == id
    }

    /// The cached semantic buttons of a page.
    pub open spec fn category_buttons(self, id: PageId) -> Seq<usize> {
        self.library@[self.category_index(id)].buttons@
    }
}

/// The track table entry that a state-change notification for `path`
/// reaches: the most recently registered one, mirroring a map insert that
/// overwrites.
pub open spec fn track_lookup(tracks: Seq<TrackEntry>, path: Seq<char>) -> Option<int>
    decreases tracks.len(),
{
    if tracks.len() == 0 {
        None
    } else if tracks.last().path@ == path {
        Some(tracks.len() - 1)
    } else {
        track_lookup(tracks.drop_last(), path)
    }
}

/// Everything a grid re-derivation may do to the deck besides what the
/// transition itself says: grow the caches. Existing arena buttons, cache
/// entries and track entries are untouched, so button identities are
/// stable for the controller's lifetime.
pub open spec fn cache_extends(pre: NoiseDeck, post: NoiseDeck) -> bool {
    &&& post.geo == pre.geo
    &&& post.config == pre.config
    &&& post.vol_up == pre.vol_up
    &&& post.vol_down == pre.vol_down
    &&& post.global_db == pre.global_db
    &&& pre.buttons@.len() <= post.buttons@.len()
    &&& forall|i: int| 0 <= i < pre.buttons@.len() ==> post.buttons@[i] == pre.buttons@[i]
    &&& pre.library@.len() <= post.library@.len()
    &&& forall|i: int| 0 <= i < pre.library@.len() ==> post.library@[i] == pre.library@[i]
    &&& pre.tracks@.len() <= post.tracks@.len()
    &&& forall|i: int| 0 <= i < pre.tracks@.len() ==> post.tracks@[i] == pre.tracks@[i]
}

/// What building one page's cache entry produces: one arena button per
/// configured button, truncated to the key count less one; play-sound
/// buttons get a fresh track registration.
pub open spec fn built_button_matches(d: NoiseDeck, page: Page, base: int, q: int) -> bool {
    let b = d.buttons@[base + q];
    let cb = page.buttons@[q];
    &&& b.data.label == cb.label
    &&& b.data.notification is None
    &&& b.on_hold is None
    &&& match cb.behavior {
        config::ButtonBehavior::PushPage(p) => b.on_tap == Some(ButtonBehavior::Push(p))
            && b.track is None,
        config::ButtonBehavior::PlaySound(path, s) => {
            &&& b.on_tap == Some(ButtonBehavior::PlayStop)
            &&& b.track matches Some(t) && t < d.tracks@.len() && d.tracks@[t as int].path@
                == path@ && d.tracks@[t as int].settings == s && d.tracks@[t as int].button == base
                + q && !d.tracks@[t as int].advancing
        },
    }
}

/// A cache miss built the page: the arena grew by one button per configured
/// button (truncated), a new cache entry points at them in order, and
/// nothing else changed.
pub open spec fn built_category(pre: NoiseDeck, post: NoiseDeck, id: PageId) -> bool {
    let page = pre.config.page_of(id);
    let n = min_int(page.buttons@.len() as int, pre.geo.key_count() - 1);
    let base = pre.buttons@.len() as int;
    &&& cache_extends(pre, post)
    &&& post.view_stack == pre.view_stack
    &&& post.playing == pre.playing
    &&& post.buttons@.len() == base + n
    &&& post.library@.len() == pre.library@.len() + 1
    &&& post.library@.last().id == id
    &&& post.library@.last().buttons@.len() == n
    &&& forall|k: int|
        0 <= k < n ==> #[trigger] post.library@.last().buttons@[k] == base + k
    &&& forall|k: int| 0 <= k < n ==> built_button_matches(post, page, base, k)
}

/// An identical copy of an index list.
fn copy_indices(v: &Vec<usize>) -> (r: Vec<usize>)
    ensures
        r@ == v@,
{
    let mut r: Vec<usize> = Vec::new();
    let mut i: usize = 0;
    while i < v.len()
        invariant
            i <= v@.len(),
            r@ == v@.take(i as int),
        decreases v@.len() - i,
    {
        r.push(v[i]);
        proof {
            assert(r@ =~= v@.take(i + 1));
        }
        i += 1;
    }
    proof {
        assert(v@.take(v@.len() as int) =~= v@);
    }
    r
}

impl NoiseDeck {
    /// A fresh controller: the view stack holds the start page, the caches
    /// are empty, and the arena holds the two persistent volume buttons.
    pub fn new(geo: Geometry, config: Config) -> (d: NoiseDeck)
        requires
            geo.wf(),
            config.wf(),
        ensures
            d.wf(),
            d.geo == geo,
            d.config == config,
            d.view_stack@.len() == 1,
            d.view_stack@[0].view_type == ViewType::LibraryPage(config.start_page),
            d.view_stack@[0].offset == 0,
            d.playing.buttons@ == Seq::<usize>::empty(),
            d.playing.offset == 0,
            d.library@.len() == 0,
            d.tracks@.len() == 0,
            d.global_db == 0,
            d.buttons@.len() == 2,
            d.vol_up == 0,
            d.vol_down == 1,
            d.buttons@[0].data.label@ == "Vol +"@,
            d.buttons@[0].data.notification is None,
            d.buttons@[0].on_tap == Some(ButtonBehavior::VolumeUp),
            d.buttons@[1].data.label@ == "Vol -"@,
            d.buttons@[1].data.notification is None,
            d.buttons@[1].on_tap == Some(ButtonBehavior::VolumeDown),
    {
        let mut buttons: Vec<Button> = Vec::new();
        buttons.push(
            Button {
                data: ButtonData { label: String::from_str("Vol +"), notification: None },
                track: None,
                on_tap: Some(ButtonBehavior::VolumeUp),
                on_hold: None,
            },
        );
        buttons.push(
            Button {
                data: ButtonData { label: String::from_str("Vol -"), notification: None },
                track: None,
                on_tap: Some(ButtonBehavior::VolumeDown),
                on_hold: None,
            },
        );
        let mut view_stack: Vec<View> = Vec::new();
        view_stack.push(View::new(config.start_page));
        NoiseDeck {
            geo,
            config,
            buttons,
            library: Vec::new(),
            tracks: Vec::new(),
            view_stack,
            playing: PlayingView::new(),
            vol_up: 0,
            vol_down: 1,
            global_db: 0,
        }
    }

    /// The memoized semantic buttons of a page: on a miss the page is built
    /// from the configuration and its tracks are registered; on a hit the
    /// deck is untouched and the same identities come back.
    #[verifier::loop_isolation(false)]
    #[verifier::rlimit(60)]
    pub fn get_library_category(&mut self, page_id: PageId) -> (r: Vec<usize>)
        requires
            old(self).wf(),
            old(self).config.has_page(page_id),
        ensures
            final(self).wf(),
            final(self).has_category(page_id),
            r@ == final(self).category_buttons(page_id),
            cache_extends(*old(self), *final(self)),
            final(self).view_stack == old(self).view_stack,
            final(self).playing == old(self).playing,
            old(self).has_category(page_id) ==> *final(self) == *old(self),
            !old(self).has_category(page_id) ==> built_category(
                *old(self),
                *final(self),
                page_id,
            ),
    {
        // Cache hit: hand the memoized identities back.
        let mut i: usize = 0;
        while i < self.library.len()
            invariant
                i <= self.library@.len(),
                forall|k: int| 0 <= k < i ==> self.library@[k].id != page_id,
            decreases self.library@.len() - i,
        {
            if self.library[i].id == page_id {
                proof {
                    assert(self.library@[i as int].id == page_id);
                    let w = self.category_index(page_id);
                    if w < i {
                        assert(self.library@[w].id != page_id);
                    }
                    if i < w {
                        assert(self.library@[i as int].id != self.library@[w].id);
                    }
                }
                return copy_indices(&self.library[i].buttons);
            }
            i += 1;
        }

        // Cache miss: build the page.
        let page: Page = match self.config.find_page(page_id) {
            Some(p) => p.clone(),
            None => {
                proof {
                    assert(false);
                }
                Page { name: String::new(), buttons: Vec::new() }
            },
        };
        let ghost pre = *self;
        let ghost cpage = pre.config.page_of(page_id);
        proof {
            assert(page.buttons@ == cpage.buttons@);
        }
        proof {
            self.geo.lemma_regions_fill_grid();
        }
        let max_buttons = self.geo.key_count_exec() - 1;
        let base = self.buttons.len();
        let n: usize = if page.buttons.len() < max_buttons {
            page.buttons.len()
        } else {
            max_buttons
        };
        let mut built: Vec<usize> = Vec::new();
        let mut k: usize = 0;
        while k < n
            invariant
                k <= n,
                n <= page.buttons@.len(),
                n as int == min_int(cpage.buttons@.len() as int, pre.geo.key_count() - 1),
                base == pre.buttons@.len(),
                self.geo == pre.geo,
                self.config == pre.config,
                self.view_stack == pre.view_stack,
                self.playing == pre.playing,
                self.library == pre.library,
                self.vol_up == pre.vol_up,
                self.vol_down == pre.vol_down,
                self.global_db == pre.global_db,
                self.buttons@.len() == base + k,
                forall|q: int| 0 <= q < base ==> self.buttons@[q] == pre.buttons@[q],
                pre.tracks@.len() <= self.tracks@.len(),
                forall|q: int| 0 <= q < pre.tracks@.len() ==> self.tracks@[q] == pre.tracks@[q],
                built@.len() == k,
                forall|q: int| 0 <= q < k ==> #[trigger] built@[q] == base + q,
                forall|q: int| 0 <= q < k ==> built_button_matches(*self, cpage, base as int, q),
                forall|t: int|
                    0 <= t < self.tracks@.len() ==> #[trigger] self.tracks@[t].button
                        < self.buttons@.len(),
                forall|b: int|
                    0 <= b < self.buttons@.len() ==> self.button_ok(#[trigger] self.buttons@[b]),
            decreases n - k,
        {
            let bid = self.buttons.len();
            let ghost snap = *self;
            proof {
                assert(bid == base + k);
            }
            let cb = &page.buttons[k];
            match &cb.behavior {
                config::ButtonBehavior::PushPage(pid) => {
                    proof {
                        let w = choose|w: int|
                            0 <= w < pre.config.pages@.len() && pre.config.pages@[w].0 == page_id;
                        assert(pre.config.behavior_closed(
                            pre.config.pages@[w].1.buttons@[k as int].behavior,
                        ));
                    }
                    self.buttons.push(
                        Button {
                            data: ButtonData { label: cb.label.clone(), notification: None },
                            track: None,
                            on_tap: Some(ButtonBehavior::Push(*pid)),
                            on_hold: None,
                        },
                    );
                },
                config::ButtonBehavior::PlaySound(path, settings) => {
                    let t = self.tracks.len();
                    self.tracks.push(
                        TrackEntry {
                            path: path.clone(),
                            settings: *settings,
                            button: bid,
                            advancing: false,
                        },
                    );
                    self.buttons.push(
                        Button {
                            data: ButtonData { label: cb.label.clone(), notification: None },
                            track: Some(t),
                            on_tap: Some(ButtonBehavior::PlayStop),
                            on_hold: None,
                        },
                    );
                },
            }
            built.push(bid);
            proof {
                assert forall|q: int|
                    0 <= q < k + 1 implies built_button_matches(
                    *self,
                    cpage,
                    base as int,
                    q,
                ) by {
                    if q < k {
                        assert(built_button_matches(snap, cpage, base as int, q));
                        assert(self.buttons@[base + q] == snap.buttons@[base + q]);
                    } else {
                        assert(self.buttons@[base as int + k as int] == self.buttons@.last());
                    }
                }
            }
            k += 1;
        }
        let r = copy_indices(&built);
        let ghost built_deck = *self;
        self.library.push(LibraryCategoryState { id: page_id, buttons: built });
        proof {
            assert(self.library@.last().id == page_id);
            let w = self.category_index(page_id);
            let last = self.library@.len() - 1;
            if w < last {
                assert(self.library@[w] == pre.library@[w]);
                assert(pre.library@[w].id != page_id);
            }
            assert(w == last);
            assert forall|q: int|
                0 <= q < n implies built_button_matches(*self, cpage, base as int, q) by {
                assert(built_button_matches(built_deck, cpage, base as int, q));
                assert(self.buttons == built_deck.buttons);
                assert(self.tracks == built_deck.tracks);
            }
        }
        r
    }
}

/// The grid is the correct rendering of the deck's top view.
pub open spec fn top_grid_ok(g: Seq<Option<ButtonRef>>, d: NoiseDeck) -> bool {
    match d.top_view().view_type {
        ViewType::LibraryPage(id) => {
            &&& d.has_category(id)
            &&& lib_grid_ok(
                g,
                d.buttons@,
                d.category_buttons(id),
                d.top_view().offset as nat,
                d.playing.buttons@,
                d.playing.offset as nat,
                d.geo,
                d.config.start_page,
            )
        },
        ViewType::VolumeControl => vol_grid_ok(
            g,
            d.buttons@,
            d.vol_up,
            d.vol_down,
            d.playing.buttons@,
            d.playing.offset as nat,
            d.geo,
            d.config.start_page,
        ),
    }
}

/// The command flips to a correct grid for the deck's top view.
pub open spec fn flip_ok(cmd: UiCommand, d: NoiseDeck) -> bool {
    match cmd {
        UiCommand::Flip(g) => top_grid_ok(g@, d),
        UiCommand::Refresh => false,
    }
}

/// Exactly one command was emitted: a flip to the current grid.
pub open spec fn ui_one_flip(ui: Seq<UiCommand>, d: NoiseDeck) -> bool {
    ui.len() == 1 && flip_ok(ui[0], d)
}

impl NoiseDeck {
    /// Derives the grid for the top view and emits it as a flip. May build
    /// the library cache for the page shown.
    pub fn display_top_page(&mut self) -> (cmd: UiCommand)
        requires
            old(self).wf(),
        ensures
            final(self).wf(),
            cache_extends(*old(self), *final(self)),
            final(self).view_stack == old(self).view_stack,
            final(self).playing == old(self).playing,
            flip_ok(cmd, *final(self)),
            old(self).top_view().view_type is VolumeControl ==> *final(self) == *old(self),
    {
        let n = self.view_stack.len();
        let top: View = self.view_stack[n - 1];
        match top.view_type {
            ViewType::LibraryPage(page_id) => {
                proof {
                    assert(old(self).view_ok(old(self).view_stack@.last()));
                }
                let semantic = self.get_library_category(page_id);
                let v = top;
                let (grid, _) = layout_page(
                    &self.buttons,
                    &semantic,
                    &v,
                    &self.playing,
                    &self.geo,
                    self.config.start_page,
                );
                UiCommand::Flip(grid)
            },
            ViewType::VolumeControl => {
                let grid = layout_volume_control_page(
                    &self.buttons,
                    self.vol_up,
                    self.vol_down,
                    &self.playing,
                    &self.geo,
                    self.config.start_page,
                );
                UiCommand::Flip(grid)
            },
        }
    }
}

/// How far one volume tap moves the global volume, in decibels.
pub const VOLUME_DELTA_DB: i64 = 3;

/// The range the controller keeps the global volume in.
pub const VOLUME_DB_LIMIT: i64 = 1000000000;

/// The decimal rendering of a possibly negative number.
pub open spec fn sdec_spec(n: int) -> Seq<char> {
    if n < 0 {
        "-"@ + dec_spec((-n) as nat)
    } else {
        dec_spec(n as nat)
    }
}

/// The notification shown on both volume buttons: the global volume in
/// decibels.
pub open spec fn vol_notif(db: int) -> Seq<char> {
    sdec_spec(db) + " dB"@
}

/// The decimal rendering of a possibly negative number.
pub fn sdec(n: i64) -> (r: String)
    requires
        -VOLUME_DB_LIMIT <= n <= VOLUME_DB_LIMIT,
    ensures
        r@ == sdec_spec(n as int),
{
    if n < 0 {
        let mut r = String::from_str("-");
        let d = dec((-n) as usize);
        r.append(d.as_str());
        r
    } else {
        dec(n as usize)
    }
}

/// A fresh library-page frame.
pub open spec fn lib_view(id: PageId) -> View {
    View { view_type: ViewType::LibraryPage(id), offset: 0 }
}

/// A fresh volume-control frame.
pub open spec fn vol_view() -> View {
    View { view_type: ViewType::VolumeControl, offset: 0 }
}

/// Every field but the view stack is unchanged.
pub open spec fn same_but_stack(pre: NoiseDeck, post: NoiseDeck) -> bool {
    &&& post.geo == pre.geo
    &&& post.config == pre.config
    &&& post.buttons == pre.buttons
    &&& post.library == pre.library
    &&& post.tracks == pre.tracks
    &&& post.playing == pre.playing
    &&& post.vol_up == pre.vol_up
    &&& post.vol_down == pre.vol_down
    &&& post.global_db == pre.global_db
}

/// Pop: drop the top frame unless it is the home frame.
pub open spec fn pop_done(pre: NoiseDeck, post: NoiseDeck) -> bool {
    &&& cache_extends(pre, post)
    &&& post.playing == pre.playing
    &&& post.view_stack@ == pop_views(pre.view_stack@)
}

/// Push: a fresh frame for the page on top.
pub open spec fn push_done(pre: NoiseDeck, post: NoiseDeck, id: PageId) -> bool {
    &&& cache_extends(pre, post)
    &&& post.playing == pre.playing
    &&& post.view_stack@ == push_views(pre.view_stack@, lib_view(id))
}

/// Goto: the stack holds only a fresh frame for the page.
pub open spec fn goto_done(pre: NoiseDeck, post: NoiseDeck, id: PageId) -> bool {
    &&& cache_extends(pre, post)
    &&& post.playing == pre.playing
    &&& post.view_stack@ == seq![lib_view(id)]
}

/// Show the volume-control screen on top.
pub open spec fn showvol_done(pre: NoiseDeck, post: NoiseDeck) -> bool {
    &&& same_but_stack(pre, post)
    &&& post.view_stack@ == push_views(pre.view_stack@, vol_view())
}

/// Reset: zero the top frame's offset and the playing set's offset.
pub open spec fn reset_done(pre: NoiseDeck, post: NoiseDeck) -> bool {
    let top = pre.top_view();
    &&& cache_extends(pre, post)
    &&& post.playing.buttons == pre.playing.buttons
    &&& post.playing.offset == 0
    &&& post.view_stack@ == pre.view_stack@.update(
        pre.view_stack@.len() - 1,
        View { view_type: top.view_type, offset: 0 },
    )
}

/// Rotate: on a library page, advance the content offset by the larger of
/// the content size and the buttons actually displayed, wrapping past the
/// list end; always advance the playing set's offset by the dynamic size,
/// wrapping past the set's length.
pub open spec fn rotate_done(pre: NoiseDeck, post: NoiseDeck) -> bool {
    let top = pre.top_view();
    &&& cache_extends(pre, post)
    &&& post.playing.buttons == pre.playing.buttons
    &&& post.playing.offset == rotate_offset(
        pre.playing.offset as nat,
        pre.geo.n_dynamic as nat,
        pre.playing.buttons@.len(),
    )
    &&& match top.view_type {
        ViewType::LibraryPage(id) => {
            let sem = post.category_buttons(id);
            let nd = displayed_count(
                sem,
                top.offset as nat,
                pre.geo.n_content as nat,
                pre.geo.n_dynamic as nat,
                pre.playing.buttons@,
                pre.playing.offset as nat,
            );
            let adv = if pre.geo.n_content >= nd {
                pre.geo.n_content as int
            } else {
                nd
            };
            &&& post.has_category(id)
            &&& post.view_stack@ == pre.view_stack@.update(
                pre.view_stack@.len() - 1,
                View {
                    view_type: top.view_type,
                    offset: rotate_offset(top.offset as nat, adv as nat, sem.len()) as usize,
                },
            )
        },
        ViewType::VolumeControl => post.view_stack == pre.view_stack,
    }
}

impl NoiseDeck {
    /// Pops the top frame and re-displays; at the home frame it is a no-op
    /// that asks for nothing more than the caller's automatic refresh.
    pub fn btn_pop(&mut self) -> (r: (BtnInvokeStatus, Vec<UiCommand>))
        requires
            old(self).wf(),
        ensures
            final(self).wf(),
            pop_done(*old(self), *final(self)),
            old(self).view_stack@.len() > 1 ==> r.0.skip_refresh && ui_one_flip(
                r.1@,
                *final(self),
            ),
            old(self).view_stack@.len() <= 1 ==> !r.0.skip_refresh && r.1@.len() == 0
                && *final(self) == *old(self),
    {
        if self.view_stack.len() <= 1 {
            return (BtnInvokeStatus { skip_refresh: false }, Vec::new());
        }
        self.view_stack.pop();
        proof {
            assert(self.view_stack@ =~= pop_views(old(self).view_stack@));
        }
        let cmd = self.display_top_page();
        let mut ui: Vec<UiCommand> = Vec::new();
        ui.push(cmd);
        (BtnInvokeStatus { skip_refresh: true }, ui)
    }

    /// Pushes a fresh frame for the page and displays it.
    pub fn btn_push(&mut self, id: PageId) -> (r: (BtnInvokeStatus, Vec<UiCommand>))
        requires
            old(self).wf(),
            old(self).config.has_page(id),
        ensures
            final(self).wf(),
            push_done(*old(self), *final(self), id),
            r.0.skip_refresh,
            ui_one_flip(r.1@, *final(self)),
    {
        self.view_stack.push(View::new(id));
        let cmd = self.display_top_page();
        let mut ui: Vec<UiCommand> = Vec::new();
        ui.push(cmd);
        (BtnInvokeStatus { skip_refresh: true }, ui)
    }

    /// Clears the stack and opens the page as the new home frame.
    pub fn btn_goto(&mut self, id: PageId) -> (r: (BtnInvokeStatus, Vec<UiCommand>))
        requires
            old(self).wf(),
            old(self).config.has_page(id),
        ensures
            final(self).wf(),
            goto_done(*old(self), *final(self), id),
            r.0.skip_refresh,
            ui_one_flip(r.1@, *final(self)),
    {
        self.view_stack.clear();
        self.view_stack.push(View::new(id));
        proof {
            assert(self.view_stack@ =~= seq![lib_view(id)]);
        }
        let cmd = self.display_top_page();
        let mut ui: Vec<UiCommand> = Vec::new();
        ui.push(cmd);
        (BtnInvokeStatus { skip_refresh: true }, ui)
    }

    /// Opens the volume-control screen on top of the stack.
    pub fn btn_show_volume_control(&mut self) -> (r: (BtnInvokeStatus, Vec<UiCommand>))
        requires
            old(self).wf(),
        ensures
            final(self).wf(),
            showvol_done(*old(self), *final(self)),
            r.0.skip_refresh,
            ui_one_flip(r.1@, *final(self)),
    {
        self.view_stack.push(View::new_volume_control());
        let cmd = self.display_top_page();
        let mut ui: Vec<UiCommand> = Vec::new();
        ui.push(cmd);
        (BtnInvokeStatus { skip_refresh: true }, ui)
    }

    /// Zeroes the current view's offset and the playing set's offset, then
    /// re-displays.
    pub fn btn_reset_offset(&mut self) -> (r: (BtnInvokeStatus, Vec<UiCommand>))
        requires
            old(self).wf(),
        ensures
            final(self).wf(),
            reset_done(*old(self), *final(self)),
            r.0.skip_refresh,
            ui_one_flip(r.1@, *final(self)),
    {
        let n = self.view_stack.len();
        let top: View = self.view_stack[n - 1];
        self.view_stack.set(n - 1, View { view_type: top.view_type, offset: 0 });
        self.playing.offset = 0;
        let cmd = self.display_top_page();
        let mut ui: Vec<UiCommand> = Vec::new();
        ui.push(cmd);
        (BtnInvokeStatus { skip_refresh: true }, ui)
    }

    /// Rotate: pages the content region forward and cycles the playing-set
    /// display, then re-displays. One physical button drives both.
    pub fn btn_rotate(&mut self) -> (r: (BtnInvokeStatus, Vec<UiCommand>))
        requires
            old(self).wf(),
        ensures
            final(self).wf(),
            rotate_done(*old(self), *final(self)),
            r.0.skip_refresh,
            ui_one_flip(r.1@, *final(self)),
    {
        let n = self.view_stack.len();
        let top: View = self.view_stack[n - 1];
        if !top.is_volume_control() {
            let page_id = match top.page_id() {
                Some(id) => id,
                None => {
                    proof {
                        assert(false);
                    }
                    PageId(0)
                },
            };
            proof {
                assert(old(self).view_ok(old(self).view_stack@.last()));
            }
            let semantic = self.get_library_category(page_id);
            let v = top;
            let (_, n_displayed) = layout_page(
                &self.buttons,
                &semantic,
                &v,
                &self.playing,
                &self.geo,
                self.config.start_page,
            );
            let adv = if self.geo.n_content >= n_displayed {
                self.geo.n_content
            } else {
                n_displayed
            };
            let new_off = rotate_offset_exec(top.offset, adv, semantic.len());
            self.view_stack.set(n - 1, View { view_type: top.view_type, offset: new_off });
        }
        let plen = self.playing.buttons.len();
        let new_poff = rotate_offset_exec(self.playing.offset, self.geo.n_dynamic, plen);
        self.playing.offset = new_poff;
        let cmd = self.display_top_page();
        let mut ui: Vec<UiCommand> = Vec::new();
        ui.push(cmd);
        (BtnInvokeStatus { skip_refresh: true }, ui)
    }
}

/// The new state and notifications after the global volume was set: both
/// volume buttons show the new level, nothing else moved.
pub open spec fn volume_set_done(pre: NoiseDeck, post: NoiseDeck, new_db: int) -> bool {
    &&& post.geo == pre.geo
    &&& post.config == pre.config
    &&& post.library == pre.library
    &&& post.tracks == pre.tracks
    &&& post.view_stack == pre.view_stack
    &&& post.playing == pre.playing
    &&& post.vol_up == pre.vol_up
    &&& post.vol_down == pre.vol_down
    &&& post.global_db == new_db
    &&& post.buttons@.len() == pre.buttons@.len()
    &&& forall|i: int|
        0 <= i < pre.buttons@.len() && i != pre.vol_up && i != pre.vol_down
            ==> post.buttons@[i] == pre.buttons@[i]
    &&& vol_notified(pre.buttons@[pre.vol_up as int], post.buttons@[pre.vol_up as int], new_db)
    &&& vol_notified(pre.buttons@[pre.vol_down as int], post.buttons@[pre.vol_down as int], new_db)
}

/// The button kept its label, behaviors and track, and its notification now
/// shows the volume level.
pub open spec fn vol_notified(b0: Button, b1: Button, db: int) -> bool {
    &&& b1.data.label == b0.data.label
    &&& b1.track == b0.track
    &&& b1.on_tap == b0.on_tap
    &&& b1.on_hold == b0.on_hold
    &&& b1.data.notification matches Some(s) && s@ == vol_notif(db)
}

/// The single audio command that a play/stop tap emits: stop the track if
/// its last reported state was advancing, else play it.
pub open spec fn play_stop_audio(pre: NoiseDeck, t: int, audio: Seq<AudioCommand>) -> bool {
    &&& audio.len() == 1
    &&& match audio[0] {
        AudioCommand::Stop(tr) => pre.tracks@[t].advancing && tr.path@ == pre.tracks@[t].path@
            && tr.settings == pre.tracks@[t].settings,
        AudioCommand::Play(tr) => !pre.tracks@[t].advancing && tr.path@ == pre.tracks@[t].path@
            && tr.settings == pre.tracks@[t].settings,
        _ => false,
    }
}

impl NoiseDeck {
    /// Records the new global volume and shows it on both volume buttons.
    fn set_global_db(&mut self, db: i64)
        requires
            old(self).wf(),
            -VOLUME_DB_LIMIT <= db <= VOLUME_DB_LIMIT,
        ensures
            final(self).wf(),
            volume_set_done(*old(self), *final(self), db as int),
    {
        self.global_db = db;
        let mut s = sdec(db);
        s.append(" dB");
        let up = self.buttons[self.vol_up].clone();
        self.buttons.set(
            self.vol_up,
            Button {
                data: ButtonData { label: up.data.label, notification: Some(s.clone()) },
                track: up.track,
                on_tap: up.on_tap,
                on_hold: up.on_hold,
            },
        );
        let down = self.buttons[self.vol_down].clone();
        self.buttons.set(
            self.vol_down,
            Button {
                data: ButtonData { label: down.data.label, notification: Some(s) },
                track: down.track,
                on_tap: down.on_tap,
                on_hold: down.on_hold,
            },
        );
    }

    /// Raises the global volume one step and tells the audio engine.
    pub fn btn_volume_up(&mut self) -> (r: (BtnInvokeStatus, Vec<AudioCommand>))
        requires
            old(self).wf(),
        ensures
            final(self).wf(),
            volume_set_done(
                *old(self),
                *final(self),
                if old(self).global_db + VOLUME_DELTA_DB <= VOLUME_DB_LIMIT {
                    old(self).global_db + VOLUME_DELTA_DB
                } else {
                    old(self).global_db as int
                },
            ),
            !r.0.skip_refresh,
            r.1@ == seq![AudioCommand::SetGlobalVolume(final(self).global_db)],
    {
        let nd = if self.global_db <= VOLUME_DB_LIMIT - VOLUME_DELTA_DB {
            self.global_db + VOLUME_DELTA_DB
        } else {
            self.global_db
        };
        self.set_global_db(nd);
        let mut audio: Vec<AudioCommand> = Vec::new();
        audio.push(AudioCommand::SetGlobalVolume(nd));
        proof {
            assert(audio@ =~= seq![AudioCommand::SetGlobalVolume(nd)]);
        }
        (BtnInvokeStatus { skip_refresh: false }, audio)
    }

    /// Lowers the global volume one step and tells the audio engine.
    pub fn btn_volume_down(&mut self) -> (r: (BtnInvokeStatus, Vec<AudioCommand>))
        requires
            old(self).wf(),
        ensures
            final(self).wf(),
            volume_set_done(
                *old(self),
                *final(self),
                if -VOLUME_DB_LIMIT <= old(self).global_db - VOLUME_DELTA_DB {
                    old(self).global_db - VOLUME_DELTA_DB
                } else {
                    old(self).global_db as int
                },
            ),
            !r.0.skip_refresh,
            r.1@ == seq![AudioCommand::SetGlobalVolume(final(self).global_db)],
    {
        let nd = if self.global_db >= -VOLUME_DB_LIMIT + VOLUME_DELTA_DB {
            self.global_db - VOLUME_DELTA_DB
        } else {
            self.global_db
        };
        self.set_global_db(nd);
        let mut audio: Vec<AudioCommand> = Vec::new();
        audio.push(AudioCommand::SetGlobalVolume(nd));
        proof {
            assert(audio@ =~= seq![AudioCommand::SetGlobalVolume(nd)]);
        }
        (BtnInvokeStatus { skip_refresh: false }, audio)
    }

    /// Starts the button's track, or stops it if its last reported state
    /// was advancing. The deck itself does not change; the audio engine
    /// answers with a state-change event.
    pub fn btn_play_stop(&mut self, t: usize) -> (r: (BtnInvokeStatus, Vec<AudioCommand>))
        requires
            old(self).wf(),
            t < old(self).tracks@.len(),
        ensures
            *final(self) == *old(self),
            !r.0.skip_refresh,
            play_stop_audio(*old(self), t as int, r.1@),
    {
        let tr = Track { path: self.tracks[t].path.clone(), settings: self.tracks[t].settings };
        let cmd = if self.tracks[t].advancing {
            AudioCommand::Stop(tr)
        } else {
            AudioCommand::Play(tr)
        };
        let mut audio: Vec<AudioCommand> = Vec::new();
        audio.push(cmd);
        (BtnInvokeStatus { skip_refresh: false }, audio)
    }
}

/// The volume level a volume-up tap moves to.
pub open spec fn db_after_up(db: int) -> int {
    if db + VOLUME_DELTA_DB <= VOLUME_DB_LIMIT {
        db + VOLUME_DELTA_DB
    } else {
        db
    }
}

/// The volume level a volume-down tap moves to.
pub open spec fn db_after_down(db: int) -> int {
    if -VOLUME_DB_LIMIT <= db - VOLUME_DELTA_DB {
        db - VOLUME_DELTA_DB
    } else {
        db
    }
}

/// What invoking one behavior does: the state transition, whether the
/// caller's automatic refresh is to be skipped, and the commands emitted.
pub open spec fn invoke_transition(
    pre: NoiseDeck,
    post: NoiseDeck,
    beh: ButtonBehavior,
    b: Button,
    skip: bool,
    ui: Seq<UiCommand>,
    audio: Seq<AudioCommand>,
) -> bool {
    match beh {
        ButtonBehavior::Pop => audio.len() == 0 && pop_done(pre, post) && (if pre.view_stack@.len()
            > 1 {
            skip && ui_one_flip(ui, post)
        } else {
            !skip && ui.len() == 0 && post == pre
        }),
        ButtonBehavior::Push(id) => audio.len() == 0 && push_done(pre, post, id) && skip
            && ui_one_flip(ui, post),
        ButtonBehavior::Goto(id) => audio.len() == 0 && goto_done(pre, post, id) && skip
            && ui_one_flip(ui, post),
        ButtonBehavior::Rotate => audio.len() == 0 && rotate_done(pre, post) && skip && ui_one_flip(
            ui,
            post,
        ),
        ButtonBehavior::ResetOffset => audio.len() == 0 && reset_done(pre, post) && skip
            && ui_one_flip(ui, post),
        ButtonBehavior::ShowVolumeControl => audio.len() == 0 && showvol_done(pre, post) && skip
            && ui_one_flip(ui, post),
        ButtonBehavior::VolumeUp => !skip && ui.len() == 0 && volume_set_done(
            pre,
            post,
            db_after_up(pre.global_db as int),
        ) && audio == seq![AudioCommand::SetGlobalVolume(post.global_db)],
        ButtonBehavior::VolumeDown => !skip && ui.len() == 0 && volume_set_done(
            pre,
            post,
            db_after_down(pre.global_db as int),
        ) && audio == seq![AudioCommand::SetGlobalVolume(post.global_db)],
        ButtonBehavior::PlayStop => match b.track {
            Some(t) => post == pre && !skip && ui.len() == 0 && play_stop_audio(
                pre,
                t as int,
                audio,
            ),
            None => post == pre && !skip && ui.len() == 0 && audio.len() == 0,
        },
    }
}

/// What a tap on a button does: invoke its tap behavior, then emit one
/// automatic refresh unless the behavior already flipped the grid.
pub open spec fn tap_transition(
    pre: NoiseDeck,
    post: NoiseDeck,
    b: Button,
    ui: Seq<UiCommand>,
    audio: Seq<AudioCommand>,
) -> bool {
    match b.on_tap {
        None => post == pre && ui.len() == 0 && audio.len() == 0,
        Some(beh) => match beh {
            ButtonBehavior::Pop => audio.len() == 0 && pop_done(pre, post) && (
            if pre.view_stack@.len() > 1 {
                ui_one_flip(ui, post)
            } else {
                post == pre && ui == seq![UiCommand::Refresh]
            }),
            ButtonBehavior::Push(id) => audio.len() == 0 && push_done(pre, post, id) && ui_one_flip(
                ui,
                post,
            ),
            ButtonBehavior::Goto(id) => audio.len() == 0 && goto_done(pre, post, id) && ui_one_flip(
                ui,
                post,
            ),
            ButtonBehavior::Rotate => audio.len() == 0 && rotate_done(pre, post) && ui_one_flip(
                ui,
                post,
            ),
            ButtonBehavior::ResetOffset => audio.len() == 0 && reset_done(pre, post) && ui_one_flip(
                ui,
                post,
            ),
            ButtonBehavior::ShowVolumeControl => audio.len() == 0 && showvol_done(pre, post)
                && ui_one_flip(ui, post),
            ButtonBehavior::VolumeUp => volume_set_done(pre, post, db_after_up(pre.global_db as int))
                && ui == seq![UiCommand::Refresh] && audio == seq![
                AudioCommand::SetGlobalVolume(post.global_db),
            ],
            ButtonBehavior::VolumeDown => volume_set_done(
                pre,
                post,
                db_after_down(pre.global_db as int),
            ) && ui == seq![UiCommand::Refresh] && audio == seq![
                AudioCommand::SetGlobalVolume(post.global_db),
            ],
            ButtonBehavior::PlayStop => match b.track {
                Some(t) => post == pre && ui == seq![UiCommand::Refresh] && play_stop_audio(
                    pre,
                    t as int,
                    audio,
                ),
                None => post == pre && ui == seq![UiCommand::Refresh] && audio.len() == 0,
            },
        },
    }
}

/// What a hold on a button does: invoke its hold behavior and refresh
/// unconditionally; with no hold behavior, a button whose track is
/// advancing opens the volume-control view.
pub open spec fn hold_transition(
    pre: NoiseDeck,
    post: NoiseDeck,
    b: Button,
    ui: Seq<UiCommand>,
    audio: Seq<AudioCommand>,
) -> bool {
    match b.on_hold {
        Some(beh) => match beh {
            ButtonBehavior::Pop => audio.len() == 0 && pop_done(pre, post) && (
            if pre.view_stack@.len() > 1 {
                ui_flip_refresh(ui, post)
            } else {
                post == pre && ui == seq![UiCommand::Refresh]
            }),
            ButtonBehavior::Push(id) => audio.len() == 0 && push_done(pre, post, id)
                && ui_flip_refresh(ui, post),
            ButtonBehavior::Goto(id) => audio.len() == 0 && goto_done(pre, post, id)
                && ui_flip_refresh(ui, post),
            ButtonBehavior::Rotate => audio.len() == 0 && rotate_done(pre, post) && ui_flip_refresh(
                ui,
                post,
            ),
            ButtonBehavior::ResetOffset => audio.len() == 0 && reset_done(pre, post)
                && ui_flip_refresh(ui, post),
            ButtonBehavior::ShowVolumeControl => audio.len() == 0 && showvol_done(pre, post)
                && ui_flip_refresh(ui, post),
            ButtonBehavior::VolumeUp => volume_set_done(pre, post, db_after_up(pre.global_db as int))
                && ui == seq![UiCommand::Refresh] && audio == seq![
                AudioCommand::SetGlobalVolume(post.global_db),
            ],
            ButtonBehavior::VolumeDown => volume_set_done(
                pre,
                post,
                db_after_down(pre.global_db as int),
            ) && ui == seq![UiCommand::Refresh] && audio == seq![
                AudioCommand::SetGlobalVolume(post.global_db),
            ],
            ButtonBehavior::PlayStop => match b.track {
                Some(t) => post == pre && ui == seq![UiCommand::Refresh] && play_stop_audio(
                    pre,
                    t as int,
                    audio,
                ),
                None => post == pre && ui == seq![UiCommand::Refresh] && audio.len() == 0,
            },
        },
        None => match b.track {
            Some(t) => if t < pre.tracks@.len() && pre.tracks@[t as int].advancing {
                audio.len() == 0 && showvol_done(pre, post) && ui_one_flip(ui, post)
            } else {
                post == pre && ui.len() == 0 && audio.len() == 0
            },
            None => post == pre && ui.len() == 0 && audio.len() == 0,
        },
    }
}

/// A flip to the current grid followed by one refresh.
pub open spec fn ui_flip_refresh(ui: Seq<UiCommand>, d: NoiseDeck) -> bool {
    ui.len() == 2 && flip_ok(ui[0], d) && ui[1] == UiCommand::Refresh
}

impl NoiseDeck {
    /// Dispatches one behavior invocation.
    fn invoke_behavior(&mut self, beh: ButtonBehavior, button: &Button) -> (r: (
        BtnInvokeStatus,
        Vec<UiCommand>,
        Vec<AudioCommand>,
    ))
        requires
            old(self).wf(),
            old(self).behavior_ok(beh),
            old(self).button_ok(*button),
        ensures
            final(self).wf(),
            invoke_transition(
                *old(self),
                *final(self),
                beh,
                *button,
                r.0.skip_refresh,
                r.1@,
                r.2@,
            ),
    {
        match beh {
            ButtonBehavior::Pop => {
                let (st, ui) = self.btn_pop();
                (st, ui, Vec::new())
            },
            ButtonBehavior::Push(id) => {
                let (st, ui) = self.btn_push(id);
                (st, ui, Vec::new())
            },
            ButtonBehavior::Goto(id) => {
                let (st, ui) = self.btn_goto(id);
                (st, ui, Vec::new())
            },
            ButtonBehavior::Rotate => {
                let (st, ui) = self.btn_rotate();
                (st, ui, Vec::new())
            },
            ButtonBehavior::ResetOffset => {
                let (st, ui) = self.btn_reset_offset();
                (st, ui, Vec::new())
            },
            ButtonBehavior::ShowVolumeControl => {
                let (st, ui) = self.btn_show_volume_control();
                (st, ui, Vec::new())
            },
            ButtonBehavior::VolumeUp => {
                let (st, audio) = self.btn_volume_up();
                (st, Vec::new(), audio)
            },
            ButtonBehavior::VolumeDown => {
                let (st, audio) = self.btn_volume_down();
                (st, Vec::new(), audio)
            },
            ButtonBehavior::PlayStop => {
                match &button.track {
                    Some(t) => {
                        let (st, audio) = self.btn_play_stop(*t);
                        (st, Vec::new(), audio)
                    },
                    None => (BtnInvokeStatus { skip_refresh: false }, Vec::new(), Vec::new()),
                }
            },
        }
    }

    /// Handles one tap: invoke the button's tap behavior, then emit one
    /// automatic refresh unless the behavior already flipped the grid.
    pub fn handle_button_tap(&mut self, button: &ButtonRef) -> (r: (
        Vec<UiCommand>,
        Vec<AudioCommand>,
    ))
        requires
            old(self).wf(),
            old(self).button_ok(button.button),
        ensures
            final(self).wf(),
            tap_transition(*old(self), *final(self), button.button, r.0@, r.1@),
    {
        let beh = match &button.button.on_tap {
            Some(b) => *b,
            None => {
                return (Vec::new(), Vec::new());
            },
        };
        let (st, mut ui, audio) = self.invoke_behavior(beh, &button.button);
        if !st.skip_refresh {
            ui.push(UiCommand::Refresh);
            proof {
                assert(ui@ =~= seq![UiCommand::Refresh]);
            }
        }
        (ui, audio)
    }

    /// Handles one hold: invoke the hold behavior and refresh; with no hold
    /// behavior, a button bound to an advancing track opens the
    /// volume-control view.
    pub fn handle_button_hold(&mut self, button: &ButtonRef) -> (r: (
        Vec<UiCommand>,
        Vec<AudioCommand>,
    ))
        requires
            old(self).wf(),
            old(self).button_ok(button.button),
        ensures
            final(self).wf(),
            hold_transition(*old(self), *final(self), button.button, r.0@, r.1@),
    {
        match &button.button.on_hold {
            Some(beh) => {
                let beh = *beh;
                let (_, mut ui, audio) = self.invoke_behavior(beh, &button.button);
                let ghost core = ui@;
                ui.push(UiCommand::Refresh);
                proof {
                    if core.len() == 0 {
                        assert(ui@ =~= seq![UiCommand::Refresh]);
                    }
                }
                (ui, audio)
            },
            None => {
                match &button.button.track {
                    Some(t) => {
                        let t = *t;
                        if self.tracks[t].advancing {
                            let (_, ui) = self.btn_show_volume_control();
                            (ui, Vec::new())
                        } else {
                            (Vec::new(), Vec::new())
                        }
                    },
                    None => (Vec::new(), Vec::new()),
                }
            },
        }
    }
}

/// The notification text for an advancing track with known remaining time:
/// minutes, seconds and tenths.
pub open spec fn time_notif(ms: nat) -> Seq<char> {
    " "@ + dec_spec(ms / 60000) + ":"@ + dec_spec((ms % 60000) / 1000) + "."@ + dec_spec(
        ((ms % 60000) % 1000) / 100,
    )
}

/// Renders the remaining time of an advancing track.
fn time_notif_exec(ms: usize) -> (r: String)
    ensures
        r@ == time_notif(ms as nat),
{
    let m = ms / 60000;
    let rem = ms % 60000;
    let s = rem / 1000;
    let tenth = (rem % 1000) / 100;
    let mut r = String::from_str(" ");
    let d1 = dec(m);
    r.append(d1.as_str());
    r.append(":");
    let d2 = dec(s);
    r.append(d2.as_str());
    r.append(".");
    let d3 = dec(tenth);
    r.append(d3.as_str());
    proof {
        assert(r@ =~= time_notif(ms as nat));
    }
    r
}

/// The button kept its label, behaviors and track; its notification now
/// reflects the reported playback state.
pub open spec fn notif_updated(
    b0: Button,
    b1: Button,
    advancing: bool,
    ms: Option<usize>,
) -> bool {
    &&& b1.data.label == b0.data.label
    &&& b1.track == b0.track
    &&& b1.on_tap == b0.on_tap
    &&& b1.on_hold == b0.on_hold
    &&& match (advancing, ms) {
        (true, Some(m)) => b1.data.notification matches Some(s) && s@ == time_notif(m as nat),
        (true, None) => b1.data.notification matches Some(s) && s@ == "\u{25b6}\u{fe0f}"@,
        (false, _) => b1.data.notification is None,
    }
}

/// What one track state-change notification does. An unregistered track is
/// dropped without any command. For a registered track, the bound button's
/// notification is recomputed; if the set of advancing tracks changed, the
/// whole grid is re-derived and flipped, else a lightweight refresh is
/// emitted.
pub open spec fn track_changed_transition(
    pre: NoiseDeck,
    post: NoiseDeck,
    path: Seq<char>,
    advancing: bool,
    remaining_ms: Option<usize>,
    ui: Seq<UiCommand>,
) -> bool {
    match track_lookup(pre.tracks@, path) {
        None => post == pre && ui.len() == 0,
        Some(t) => {
            let b = pre.tracks@[t].button as int;
            let changed = advancing != pre.playing.buttons@.contains(pre.tracks@[t].button);
            &&& post.geo == pre.geo
            &&& post.config == pre.config
            &&& post.vol_up == pre.vol_up
            &&& post.vol_down == pre.vol_down
            &&& post.global_db == pre.global_db
            &&& post.view_stack == pre.view_stack
            &&& pre.buttons@.len() <= post.buttons@.len()
            &&& forall|i: int|
                0 <= i < pre.buttons@.len() && i != b ==> post.buttons@[i] == pre.buttons@[i]
            &&& notif_updated(pre.buttons@[b], post.buttons@[b], advancing, remaining_ms)
            &&& pre.library@.len() <= post.library@.len()
            &&& forall|i: int| 0 <= i < pre.library@.len() ==> post.library@[i] == pre.library@[i]
            &&& pre.tracks@.len() <= post.tracks@.len()
            &&& forall|i: int|
                0 <= i < pre.tracks@.len() && i != t ==> post.tracks@[i] == pre.tracks@[i]
            &&& post.tracks@[t].path == pre.tracks@[t].path
            &&& post.tracks@[t].settings == pre.tracks@[t].settings
            &&& post.tracks@[t].button == pre.tracks@[t].button
            &&& post.tracks@[t].advancing == advancing
            &&& post.playing.buttons@.contains(pre.tracks@[t].button) == advancing
            &&& if changed {
                &&& advancing ==> post.playing.buttons@ == pre.playing.buttons@.push(
                    pre.tracks@[t].button,
                )
                &&& !advancing ==> post.playing.buttons@ == pre.playing.buttons@.remove_value(
                    pre.tracks@[t].button,
                )
                &&& post.playing.offset == pre.playing.offset
                &&& ui_one_flip(ui, post)
            } else {
                &&& post.playing == pre.playing
                &&& ui == seq![UiCommand::Refresh]
            }
        },
    }
}

impl NoiseDeck {
    /// Handles one track state-change notification from the audio engine.
    #[verifier::rlimit(60)]
    pub fn handle_track_state_changed(
        &mut self,
        path: &String,
        advancing: bool,
        remaining_ms: Option<usize>,
    ) -> (ui: Vec<UiCommand>)
        requires
            old(self).wf(),
        ensures
            final(self).wf(),
            track_changed_transition(
                *old(self),
                *final(self),
                path@,
                advancing,
                remaining_ms,
                ui@,
            ),
    {
        // Find the most recently registered track for this path.
        let n = self.tracks.len();
        let mut i: usize = n;
        proof {
            assert(self.tracks@.take(n as int) =~= self.tracks@);
        }
        let mut t: usize = 0;
        loop
            invariant
                *self == *old(self),
                self.wf(),
                i <= n,
                n == self.tracks@.len(),
                track_lookup(self.tracks@, path@) == track_lookup(
                    self.tracks@.take(i as int),
                    path@,
                ),
            ensures
                *self == *old(self),
                self.wf(),
                t < self.tracks@.len(),
                track_lookup(self.tracks@, path@) == Some(t as int),
            decreases i,
        {
            if i == 0 {
                proof {
                    assert(self.tracks@.take(0).len() == 0);
                }
                return Vec::new();
            }
            let ghost pfx = self.tracks@.take(i as int);
            proof {
                assert(pfx.last() == self.tracks@[i - 1]);
                assert(pfx.drop_last() =~= self.tracks@.take(i - 1));
            }
            if self.tracks[i - 1].path.eq(path) {
                t = i - 1;
                break ;
            }
            i = i - 1;
        }
        let b = self.tracks[t].button;

        // Recompute the button's notification from the reported state.
        let notif: Option<String> = if advancing {
            match remaining_ms {
                Some(ms) => Some(time_notif_exec(ms)),
                None => Some(String::from_str("\u{25b6}\u{fe0f}")),
            }
        } else {
            None
        };
        let cur = self.buttons[b].clone();
        self.buttons.set(
            b,
            Button {
                data: ButtonData { label: cur.data.label, notification: notif },
                track: cur.track,
                on_tap: cur.on_tap,
                on_hold: cur.on_hold,
            },
        );

        // Record the reported playback state.
        let te_path = self.tracks[t].path.clone();
        let te = TrackEntry {
            path: te_path,
            settings: self.tracks[t].settings,
            button: self.tracks[t].button,
            advancing,
        };
        self.tracks.set(t, te);
        proof {
            let pre = *old(self);
            assert forall|q: int|
                0 <= q < self.buttons@.len() implies self.button_ok(
                #[trigger] self.buttons@[q],
            ) by {
                assert(pre.button_ok(pre.buttons@[q]));
                if q != b {
                    assert(self.buttons@[q] == pre.buttons@[q]);
                }
            }
            assert(self.wf());
        }

        // Update the playing set; a membership change re-derives the grid.
        let changed = self.playing.update_playing(b, advancing);
        proof {
            let pre = *old(self);
            assert forall|q: int|
                0 <= q < self.playing.buttons@.len() implies #[trigger] self.playing.buttons@[q]
                    < self.buttons@.len() by {
                assert(self.playing.buttons@.contains(self.playing.buttons@[q]));
                if pre.playing.buttons@.contains(self.playing.buttons@[q]) {
                    let w = choose|w: int|
                        0 <= w < pre.playing.buttons@.len() && pre.playing.buttons@[w]
                            == self.playing.buttons@[q];
                    assert(pre.playing.buttons@[w] < pre.buttons@.len());
                }
            }
            assert(self.wf());
        }
        if changed {
            let cmd = self.display_top_page();
            let mut ui: Vec<UiCommand> = Vec::new();
            ui.push(cmd);
            ui
        } else {
            let mut ui: Vec<UiCommand> = Vec::new();
            ui.push(UiCommand::Refresh);
            proof {
                assert(ui@ =~= seq![UiCommand::Refresh]);
            }
            ui
        }
    }

    /// Derives and emits the initial grid.
    pub fn init(&mut self) -> (ui: Vec<UiCommand>)
        requires
            old(self).wf(),
        ensures
            final(self).wf(),
            cache_extends(*old(self), *final(self)),
            final(self).view_stack == old(self).view_stack,
            final(self).playing == old(self).playing,
            ui_one_flip(ui@, *final(self)),
    {
        let cmd = self.display_top_page();
        let mut ui: Vec<UiCommand> = Vec::new();
        ui.push(cmd);
        ui
    }

    /// Handles one input event.
    pub fn handle_ui_event(&mut self, event: &UiEvent) -> (r: (Vec<UiCommand>, Vec<AudioCommand>))
        requires
            old(self).wf(),
            match *event {
                UiEvent::ButtonTap(ref b) => old(self).button_ok(b.button),
                UiEvent::ButtonHold(ref b) => old(self).button_ok(b.button),
            },
        ensures
            final(self).wf(),
            match *event {
                UiEvent::ButtonTap(ref b) => tap_transition(
                    *old(self),
                    *final(self),
                    b.button,
                    r.0@,
                    r.1@,
                ),
                UiEvent::ButtonHold(ref b) => hold_transition(
                    *old(self),
                    *final(self),
                    b.button,
                    r.0@,
                    r.1@,
                ),
            },
    {
        match event {
            UiEvent::ButtonTap(b) => self.handle_button_tap(b),
            UiEvent::ButtonHold(b) => self.handle_button_hold(b),
        }
    }

    /// Handles one audio event. Volume echoes carry no display work.
    pub fn handle_audio_event(&mut self, event: &AudioEvent) -> (ui: Vec<UiCommand>)
        requires
            old(self).wf(),
        ensures
            final(self).wf(),
            match *event {
                AudioEvent::TrackStateChanged { ref path, advancing, remaining_ms } =>
                    track_changed_transition(
                    *old(self),
                    *final(self),
                    path@,
                    advancing,
                    remaining_ms,
                    ui@,
                ),
                AudioEvent::GlobalVolumeChanged(_) => *final(self) == *old(self) && ui@.len() == 0,
            },
    {
        match event {
            AudioEvent::TrackStateChanged { path, advancing, remaining_ms } => self
                .handle_track_state_changed(path, *advancing, *remaining_ms),
            AudioEvent::GlobalVolumeChanged(_) => Vec::new(),
        }
    }

    /// Whether an event button is safe to hand to the handlers: its
    /// behaviors target existing pages and its track link is in range.
    /// The event loop drops buttons that fail this.
    pub fn check_button(&self, b: &Button) -> (r: bool)
        requires
            self.wf(),
        ensures
            r == self.button_ok(*b),
    {
        let tap_ok = self.check_behavior(&b.on_tap);
        let hold_ok = self.check_behavior(&b.on_hold);
        let track_ok = match &b.track {
            Some(t) => *t < self.tracks.len(),
            None => true,
        };
        tap_ok && hold_ok && track_ok
    }

    fn check_behavior(&self, b: &Option<ButtonBehavior>) -> (r: bool)
        requires
            self.wf(),
        ensures
            r == self.behavior_opt_ok(*b),
    {
        match b {
            Some(ButtonBehavior::Push(id)) => self.config.find_page(*id).is_some(),
            Some(ButtonBehavior::Goto(id)) => self.config.find_page(*id).is_some(),
            _ => true,
        }
    }

    /// The current display state of an arena button, for renderers that
    /// re-read buttons on a refresh.
    pub fn button_data(&self, idx: usize) -> (d: ButtonData)
        requires
            idx < self.buttons@.len(),
        ensures
            d == self.buttons@[idx as int].data,
    {
        self.buttons[idx].data.clone()
    }
}

/// Holding a button that has no hold behavior but is bound to an advancing
/// track opens the volume-control view: the one emitted command flips to a
/// grid whose first slot is labeled "Vol +", whose second-row slot is
/// labeled "Vol -", and whose bottom-row back slot is labeled "Back".
pub proof fn lemma_hold_opens_volume_view(
    pre: NoiseDeck,
    post: NoiseDeck,
    b: Button,
    ui: Seq<UiCommand>,
    audio: Seq<AudioCommand>,
)
    requires
        pre.wf(),
        post.wf(),
        hold_transition(pre, post, b, ui, audio),
        b.on_hold is None,
        match b.track {
            Some(t) => t < pre.tracks@.len() && pre.tracks@[t as int].advancing,
            None => false,
        },
    ensures
        ui.len() == 1,
        match ui[0] {
            UiCommand::Flip(g) => {
                &&& g@.len() == pre.geo.key_count()
                &&& match g@[0] {
                    Some(br) => br.button.data.label@ == "Vol +"@,
                    None => false,
                }
                &&& match g@[pre.geo.cols as int] {
                    Some(br) => br.button.data.label@ == "Vol -"@,
                    None => false,
                }
                &&& match g@[pre.geo.n_content as int] {
                    Some(br) => br.button.data.label@ == "Back"@,
                    None => false,
                }
            },
            UiCommand::Refresh => false,
        },
{
    assert(showvol_done(pre, post));
    assert(post.top_view() == vol_view());
    assert(flip_ok(ui[0], post));
}

} // verus!
