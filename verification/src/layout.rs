//! The layout engine: a pure function from semantic buttons, the current
//! view, the playing set and the device geometry to the physical grid.
//!
//! A grid has four regions, in key order: the content region (the page's
//! buttons, windowed by the view's offset), one static back slot, the
//! dynamic region (the playing set rotated by its own offset, deduplicated
//! against the content region and backfilled with further page buttons), and
//! one next/rotate slot whose label shows an estimated page count.

use vstd::prelude::*;
use vstd::view::View as _;
use crate::btn::{Button, ButtonBehavior, ButtonData, ButtonRef};
use crate::config::PageId;
use crate::geometry::Geometry;
use crate::text::{dec, dec_spec};
use crate::view::{PlayingView, View};

verus! {

pub open spec fn min_int(a: int, b: int) -> int {
    if a < b {
        a
    } else {
        b
    }
}

/// Where the content window starts, clamped into the list.
pub open spec fn content_start(off: nat, len: nat) -> int {
    min_int(off as int, len as int)
}

/// How many semantic buttons the content window shows: an out-of-range
/// offset degrades to an empty window.
pub open spec fn content_count(off: nat, n_content: nat, len: nat) -> int {
    min_int(n_content as int, len as int - content_start(off, len))
}

/// The semantic buttons (arena indices) shown in the content region.
pub open spec fn content_ids(sem: Seq<usize>, off: nat, n_content: nat) -> Seq<usize> {
    let s = content_start(off, sem.len());
    sem.subrange(s, s + content_count(off, n_content, sem.len()))
}

/// The playing set rotated by its offset; an out-of-range offset leaves the
/// order unchanged.
pub open spec fn rotated(p: Seq<usize>, off: nat) -> Seq<usize> {
    let k = min_int(off as int, p.len() as int);
    p.skip(k) + p.take(k)
}

/// Predicate: the button is not shown in the content region.
pub open spec fn not_in_content(sem: Seq<usize>, off: nat, n_content: nat) -> spec_fn(
    usize,
) -> bool {
    |x: usize| !content_ids(sem, off, n_content).contains(x)
}

/// Predicate: the button is not in the playing set.
pub open spec fn not_in_playing(playing: Seq<usize>) -> spec_fn(usize) -> bool {
    |x: usize| !playing.contains(x)
}

/// The rotated playing set with the buttons already shown in the content
/// region removed.
pub open spec fn playing_shown(
    sem: Seq<usize>,
    off: nat,
    n_content: nat,
    playing: Seq<usize>,
    poff: nat,
) -> Seq<usize> {
    rotated(playing, poff).filter(not_in_content(sem, off, n_content))
}

/// How many playing-set buttons the dynamic region actually shows.
pub open spec fn shown_count(
    sem: Seq<usize>,
    off: nat,
    n_content: nat,
    n_dynamic: nat,
    playing: Seq<usize>,
    poff: nat,
) -> int {
    min_int(playing_shown(sem, off, n_content, playing, poff).len() as int, n_dynamic as int)
}

/// The semantic buttons after the content window that are not in the playing
/// set; they backfill unused dynamic capacity.
pub open spec fn backfill_pool(
    sem: Seq<usize>,
    off: nat,
    n_content: nat,
    playing: Seq<usize>,
) -> Seq<usize> {
    sem.skip(content_start(off, sem.len()) + content_count(off, n_content, sem.len())).filter(
        not_in_playing(playing),
    )
}

/// The buttons of the dynamic region, in order: shown playing buttons first,
/// then backfill.
pub open spec fn dynamic_ids(
    sem: Seq<usize>,
    off: nat,
    n_content: nat,
    n_dynamic: nat,
    playing: Seq<usize>,
    poff: nat,
) -> Seq<usize> {
    let ps = playing_shown(sem, off, n_content, playing, poff);
    let eff = shown_count(sem, off, n_content, n_dynamic, playing, poff);
    let pool = backfill_pool(sem, off, n_content, playing);
    let nb = min_int(n_dynamic - eff, pool.len() as int);
    ps.take(eff) + pool.take(nb)
}

/// How many semantic buttons the whole pass displays or reserves room for:
/// the content window plus however much unused dynamic capacity could take
/// further page buttons. This feeds the page-count estimate and the rotate
/// step, and deliberately ignores that backfill skips playing buttons, so it
/// is an estimate.
pub open spec fn displayed_count(
    sem: Seq<usize>,
    off: nat,
    n_content: nat,
    n_dynamic: nat,
    playing: Seq<usize>,
    poff: nat,
) -> int {
    let c = content_count(off, n_content, sem.len());
    let eff = shown_count(sem, off, n_content, n_dynamic, playing, poff);
    let rem = sem.len() - content_start(off, sem.len()) - c;
    c + min_int(n_dynamic - eff, rem)
}

/// The estimated page size of the next-slot label: content slots plus
/// dynamic slots not taken by playing buttons.
pub open spec fn page_size_estimate(
    sem: Seq<usize>,
    off: nat,
    n_content: nat,
    n_dynamic: nat,
    playing: Seq<usize>,
    poff: nat,
) -> int {
    n_content + n_dynamic - shown_count(sem, off, n_content, n_dynamic, playing, poff)
}

/// Estimated total pages: the list length divided by the page-size estimate,
/// rounded up.
pub open spec fn total_pages(len: int, est: int) -> int {
    len / est + if len % est > 0 {
        1int
    } else {
        0int
    }
}

/// The one-based page number the offset lies on, counted in content windows.
pub open spec fn current_page(off: nat, n_content: nat) -> int {
    off as int / n_content as int + 1
}

/// The label of the next/rotate slot: current page / estimated total pages,
/// then estimated page size / list length.
pub open spec fn next_label(cur: int, tot: int, est: int, len: int) -> Seq<char> {
    "Next\n"@ + dec_spec(cur as nat) + "/"@ + dec_spec(tot as nat) + "\n"@ + dec_spec(est as nat)
        + "/"@ + dec_spec(len as nat)
}

/// The slot shows the arena button `idx`, under its identity.
pub open spec fn slot_is(arena: Seq<Button>, s: Option<ButtonRef>, idx: usize) -> bool {
    match s {
        Some(b) => b.id == Some(idx) && b.button == arena[idx as int],
        None => false,
    }
}

/// The slot is the static back button: tap pops, hold goes to the start
/// page.
pub open spec fn is_back_slot(s: Option<ButtonRef>, start_page: PageId) -> bool {
    match s {
        Some(b) => {
            &&& b.id is None
            &&& b.button.data.label@ == "Back"@
            &&& b.button.data.notification is None
            &&& b.button.track is None
            &&& b.button.on_tap == Some(ButtonBehavior::Pop)
            &&& b.button.on_hold == Some(ButtonBehavior::Goto(start_page))
        },
        None => false,
    }
}

/// The slot is the next/rotate button: tap rotates; hold rotates too when
/// both offsets are at rest, else it resets them.
pub open spec fn is_next_slot(
    s: Option<ButtonRef>,
    label: Seq<char>,
    off: nat,
    poff: nat,
) -> bool {
    match s {
        Some(b) => {
            &&& b.id is None
            &&& b.button.data.label@ == label
            &&& b.button.data.notification is None
            &&& b.button.track is None
            &&& b.button.on_tap == Some(ButtonBehavior::Rotate)
            &&& b.button.on_hold == Some(
                if off == 0 && poff == 0 {
                    ButtonBehavior::Rotate
                } else {
                    ButtonBehavior::ResetOffset
                },
            )
        },
        None => false,
    }
}

/// The content region and the back slot of a laid-out grid are correct.
pub open spec fn front_ok(
    page: Seq<Option<ButtonRef>>,
    arena: Seq<Button>,
    sem: Seq<usize>,
    off: nat,
    geo: Geometry,
    start_page: PageId,
) -> bool {
    let cc = content_count(off, geo.n_content as nat, sem.len());
    &&& forall|i: int|
        0 <= i < cc ==> slot_is(arena, #[trigger] page[i], content_ids(sem, off, geo.n_content as nat)[i])
    &&& forall|i: int| cc <= i < geo.n_content ==> #[trigger] page[i] is None
    &&& is_back_slot(page[geo.n_content as int], start_page)
}

/// A fully laid-out library-page grid: content window, back slot, dynamic
/// region and next/rotate slot, each slot pinned down.
pub open spec fn lib_grid_ok(
    g: Seq<Option<ButtonRef>>,
    arena: Seq<Button>,
    sem: Seq<usize>,
    off: nat,
    playing: Seq<usize>,
    poff: nat,
    geo: Geometry,
    start_page: PageId,
) -> bool {
    let dyn_ids = dynamic_ids(sem, off, geo.n_content as nat, geo.n_dynamic as nat, playing, poff);
    let est = page_size_estimate(
        sem,
        off,
        geo.n_content as nat,
        geo.n_dynamic as nat,
        playing,
        poff,
    );
    &&& g.len() == geo.key_count()
    &&& front_ok(g, arena, sem, off, geo, start_page)
    &&& forall|j: int|
        0 <= j < dyn_ids.len() ==> slot_is(arena, #[trigger] g[geo.n_content + 1 + j], dyn_ids[j])
    &&& forall|j: int|
        dyn_ids.len() <= j < geo.n_dynamic ==> #[trigger] g[geo.n_content + 1 + j] is None
    &&& is_next_slot(
        g[geo.key_count() - 1],
        next_label(
            current_page(off, geo.n_content as nat),
            total_pages(sem.len() as int, est),
            est,
            sem.len() as int,
        ),
        off,
        poff,
    )
}

/// A fully laid-out volume-control grid.
pub open spec fn vol_grid_ok(
    g: Seq<Option<ButtonRef>>,
    arena: Seq<Button>,
    vol_up: usize,
    vol_down: usize,
    playing: Seq<usize>,
    poff: nat,
    geo: Geometry,
    start_page: PageId,
) -> bool {
    let vd = vol_dynamic_ids(playing, poff, geo.n_dynamic as nat);
    &&& g.len() == geo.key_count()
    &&& slot_is(arena, g[0], vol_up)
    &&& slot_is(arena, g[geo.cols as int], vol_down)
    &&& forall|i: int| 0 <= i < geo.n_content && i != 0 && i != geo.cols ==> #[trigger] g[i] is None
    &&& is_back_slot(g[geo.n_content as int], start_page)
    &&& forall|j: int|
        0 <= j < vd.len() ==> slot_is(arena, #[trigger] g[geo.n_content + 1 + j], vd[j])
    &&& forall|j: int| vd.len() <= j < geo.n_dynamic ==> #[trigger] g[geo.n_content + 1 + j] is None
    &&& is_vol_next_slot(g[geo.key_count() - 1])
}

/// Extending a sequence by one element extends its filtered image by that
/// element exactly when the element passes the predicate.
proof fn lemma_filter_take_step<A>(s: Seq<A>, p: spec_fn(A) -> bool, k: int)
    requires
        0 <= k < s.len(),
    ensures
        s.take(k + 1).filter(p) == if p(s[k]) {
            s.take(k).filter(p).push(s[k])
        } else {
            s.take(k).filter(p)
        },
{
    s.lemma_take_succ_push(k);
    s.take(k).lemma_filter_push(s[k], p);
}

/// Whether `x` occurs among `v[start .. start + count]`.
#[verifier::loop_isolation(false)]
fn range_contains(v: &Vec<usize>, start: usize, count: usize, x: usize) -> (r: bool)
    requires
        start + count <= v@.len(),
    ensures
        r == v@.subrange(start as int, start as int + count as int).contains(x),
{
    let ghost w = v@.subrange(start as int, start as int + count as int);
    let n = v.len();
    let mut j: usize = 0;
    while j < count
        invariant
            j <= count,
            start + count <= v@.len(),
            w == v@.subrange(start as int, start as int + count as int),
            forall|k: int| 0 <= k < j ==> w[k] != x,
        decreases count - j,
    {
        if v[start + j] == x {
            proof {
                assert(w[j as int] == x);
            }
            return true;
        }
        j += 1;
    }
    proof {
        if w.contains(x) {
            let c = choose|k: int| 0 <= k < w.len() && w[k] == x;
            assert(w[c] != x);
        }
    }
    false
}

/// Lays out a library page: content window, back slot, dynamic region and
/// next/rotate slot. Returns the grid (always exactly the device's key
/// count) and the displayed-button count that drives the rotate step.
///
/// Out-of-range offsets degrade to empty windows; the function is total.
#[verifier::loop_isolation(false)]
#[verifier::rlimit(60)]
pub fn layout_page(
    arena: &Vec<Button>,
    semantic: &Vec<usize>,
    view: &View,
    playing: &PlayingView,
    geo: &Geometry,
    start_page: PageId,
) -> (r: (Vec<Option<ButtonRef>>, usize))
    requires
        geo.wf(),
        forall|i: int| 0 <= i < semantic@.len() ==> #[trigger] semantic@[i] < arena@.len(),
        forall|i: int|
            0 <= i < playing.buttons@.len() ==> #[trigger] playing.buttons@[i] < arena@.len(),
    ensures
        lib_grid_ok(
            r.0@,
            arena@,
            semantic@,
            view.offset as nat,
            playing.buttons@,
            playing.offset as nat,
            *geo,
            start_page,
        ),
        r.1 == displayed_count(
            semantic@,
            view.offset as nat,
            geo.n_content as nat,
            geo.n_dynamic as nat,
            playing.buttons@,
            playing.offset as nat,
        ),
{
    proof {
        geo.lemma_regions_fill_grid();
    }
    let ghost sem = semantic@;
    let ghost off_n = view.offset as nat;
    let ghost ncont = geo.n_content as nat;
    let ghost ndyn = geo.n_dynamic as nat;
    let ghost poff = playing.offset as nat;
    let ghost csl = content_ids(sem, off_n, ncont);
    let ghost np = not_in_content(sem, off_n, ncont);
    let ghost qp = not_in_playing(playing.buttons@);
    let ghost rot = rotated(playing.buttons@, poff);
    let ghost ps = playing_shown(sem, off_n, ncont, playing.buttons@, poff);

    let len = semantic.len();
    let off = view.offset;
    let start: usize = if off < len {
        off
    } else {
        len
    };
    let n_sel: usize = if off >= len {
        0
    } else if len - off < geo.n_content {
        len - off
    } else {
        geo.n_content
    };
    proof {
        assert(start as int == content_start(off_n, sem.len()));
        assert(n_sel as int == content_count(off_n, ncont, sem.len()));
        assert(csl == sem.subrange(start as int, start as int + n_sel as int));
    }

    let mut page: Vec<Option<ButtonRef>> = Vec::new();

    // Content region.
    let mut i: usize = 0;
    while i < geo.n_content
        invariant
            i <= geo.n_content,
            page@.len() == i as int,
            forall|k: int| 0 <= k < i && k < n_sel ==> slot_is(arena@, #[trigger] page@[k], csl[k]),
            forall|k: int| n_sel <= k < i ==> #[trigger] page@[k] is None,
        decreases geo.n_content - i,
    {
        if i < n_sel {
            let b = semantic[start + i];
            proof {
                assert(csl[i as int] == sem[start as int + i as int]);
            }
            page.push(Some(ButtonRef { id: Some(b), button: arena[b].clone() }));
        } else {
            page.push(None);
        }
        i += 1;
    }

    // Back slot.
    page.push(
        Some(
            ButtonRef {
                id: None,
                button: Button {
                    data: ButtonData { label: String::from_str("Back"), notification: None },
                    track: None,
                    on_tap: Some(ButtonBehavior::Pop),
                    on_hold: Some(ButtonBehavior::Goto(start_page)),
                },
            },
        ),
    );
    proof {
        assert(front_ok(page@, arena@, sem, off_n, *geo, start_page));
    }

    // Dynamic region: the rotated playing set, deduplicated against the
    // content window.
    let plen = playing.buttons.len();
    let k0: usize = if playing.offset < plen {
        playing.offset
    } else {
        plen
    };
    let mut shown: Vec<usize> = Vec::new();
    let mut k: usize = 0;
    proof {
        assert(rot.len() == plen);
        assert(rot.take(0) =~= Seq::<usize>::empty());
        assert(Seq::<usize>::empty().filter(np) =~= Seq::<usize>::empty()) by {
            reveal(Seq::filter);
        }
    }
    while k < plen
        invariant
            k <= plen,
            shown@ == rot.take(k as int).filter(np),
            forall|t: int| 0 <= t < shown@.len() ==> #[trigger] shown@[t] < arena@.len(),
        decreases plen - k,
    {
        let idx = if k < plen - k0 {
            playing.buttons[k0 + k]
        } else {
            playing.buttons[k - (plen - k0)]
        };
        proof {
            assert(idx == rot[k as int]);
            lemma_filter_take_step(rot, np, k as int);
        }
        let in_content = range_contains(semantic, start, n_sel, idx);
        proof {
            assert(np(idx) == !in_content);
        }
        if !in_content {
            shown.push(idx);
        }
        k += 1;
    }
    proof {
        assert(rot.take(plen as int) =~= rot);
        assert(shown@ == ps);
    }

    let eff: usize = if shown.len() < geo.n_dynamic {
        shown.len()
    } else {
        geo.n_dynamic
    };
    shown.truncate(geo.n_dynamic);
    proof {
        assert(eff as int == shown_count(sem, off_n, ncont, ndyn, playing.buttons@, poff));
        if eff < ps.len() {
            assert(shown@ =~= ps.take(eff as int));
        } else {
            assert(shown@ =~= ps.take(eff as int));
        }
    }

    // Backfill: page buttons after the content window that are not playing.
    let start2 = start + n_sel;
    let ghost tail = sem.skip(start2 as int);
    let mut pool: Vec<usize> = Vec::new();
    let mut t: usize = start2;
    proof {
        assert(tail.take(0) =~= Seq::<usize>::empty());
        assert(Seq::<usize>::empty().filter(qp) =~= Seq::<usize>::empty()) by {
            reveal(Seq::filter);
        }
    }
    while t < len
        invariant
            start2 <= t <= len,
            pool@ == tail.take(t as int - start2 as int).filter(qp),
            forall|w: int| 0 <= w < pool@.len() ==> #[trigger] pool@[w] < arena@.len(),
        decreases len - t,
    {
        let idx = semantic[t];
        proof {
            assert(tail[t as int - start2 as int] == sem[t as int]);
            lemma_filter_take_step(tail, qp, t as int - start2 as int);
        }
        let inplay = playing.contains(idx);
        proof {
            assert(qp(idx) == !inplay);
        }
        if !inplay {
            pool.push(idx);
        }
        t += 1;
    }
    proof {
        assert(tail.take(len as int - start2 as int) =~= tail);
        assert(pool@ == backfill_pool(sem, off_n, ncont, playing.buttons@));
    }

    let nb_cap = geo.n_dynamic - eff;
    let nb: usize = if pool.len() < nb_cap {
        pool.len()
    } else {
        nb_cap
    };
    let mut u: usize = 0;
    proof {
        assert(shown@ =~= ps.take(eff as int) + pool@.take(0));
    }
    while u < nb
        invariant
            u <= nb,
            shown@ == ps.take(eff as int) + pool@.take(u as int),
        decreases nb - u,
    {
        shown.push(pool[u]);
        proof {
            assert(ps.take(eff as int) + pool@.take(u as int + 1) =~= (ps.take(eff as int)
                + pool@.take(u as int)).push(pool@[u as int]));
        }
        u += 1;
    }
    let ghost dyn_ids = dynamic_ids(sem, off_n, ncont, ndyn, playing.buttons@, poff);
    proof {
        assert(shown@ == dyn_ids);
        assert(forall|w: int| 0 <= w < shown@.len() ==> #[trigger] shown@[w] < arena@.len());
    }

    // Dynamic slots.
    let dcount = shown.len();
    let mut j: usize = 0;
    while j < geo.n_dynamic
        invariant
            j <= geo.n_dynamic,
            page@.len() == geo.n_content + 1 + j,
            dcount == shown@.len(),
            dcount <= geo.n_dynamic,
            front_ok(page@, arena@, sem, off_n, *geo, start_page),
            forall|q: int|
                0 <= q < j && q < dcount ==> slot_is(
                    arena@,
                    #[trigger] page@[geo.n_content + 1 + q],
                    shown@[q],
                ),
            forall|q: int|
                dcount <= q < j ==> #[trigger] page@[geo.n_content + 1 + q] is None,
        decreases geo.n_dynamic - j,
    {
        if j < dcount {
            let b = shown[j];
            page.push(Some(ButtonRef { id: Some(b), button: arena[b].clone() }));
        } else {
            page.push(None);
        }
        j += 1;
    }

    // Next/rotate slot.
    let est = geo.n_content + (geo.n_dynamic - eff);
    proof {
        if len > 0 {
            vstd::arithmetic::div_mod::lemma_div_is_strictly_smaller(len as int, est as int);
        }
        if off > 0 {
            vstd::arithmetic::div_mod::lemma_div_is_strictly_smaller(
                off as int,
                geo.n_content as int,
            );
        }
    }
    let tot = len / est + if len % est > 0 {
        1
    } else {
        0
    };
    let cur = off / geo.n_content + 1;
    let mut label = String::from_str("Next\n");
    let d1 = dec(cur);
    label.append(d1.as_str());
    label.append("/");
    let d2 = dec(tot);
    label.append(d2.as_str());
    label.append("\n");
    let d3 = dec(est);
    label.append(d3.as_str());
    label.append("/");
    let d4 = dec(len);
    label.append(d4.as_str());
    proof {
        assert(est as int == page_size_estimate(sem, off_n, ncont, ndyn, playing.buttons@, poff));
        assert(tot as int == total_pages(sem.len() as int, est as int));
        assert(cur as int == current_page(off_n, ncont));
        assert(label@ =~= next_label(cur as int, tot as int, est as int, sem.len() as int));
    }
    let on_hold = if off == 0 && playing.offset == 0 {
        ButtonBehavior::Rotate
    } else {
        ButtonBehavior::ResetOffset
    };
    page.push(
        Some(
            ButtonRef {
                id: None,
                button: Button {
                    data: ButtonData { label, notification: None },
                    track: None,
                    on_tap: Some(ButtonBehavior::Rotate),
                    on_hold: Some(on_hold),
                },
            },
        ),
    );

    // The displayed-button estimate that drives the rotate step.
    let extra_cap = geo.n_dynamic - eff;
    let rem = len - start2;
    let extra = if extra_cap < rem {
        extra_cap
    } else {
        rem
    };
    let n_selected = n_sel + extra;
    proof {
        assert(n_selected as int == displayed_count(
            sem,
            off_n,
            ncont,
            ndyn,
            playing.buttons@,
            poff,
        ));
        assert(page@.len() == geo.key_count());
    }
    (page, n_selected)
}

/// The buttons of the volume screen's dynamic region: the rotated playing
/// set, unfiltered.
pub open spec fn vol_dynamic_ids(playing: Seq<usize>, poff: nat, n_dynamic: nat) -> Seq<usize> {
    rotated(playing, poff).take(min_int(playing.len() as int, n_dynamic as int))
}

/// The slot is the volume screen's next/rotate button: tap rotates the
/// playing set, hold resets its offset.
pub open spec fn is_vol_next_slot(s: Option<ButtonRef>) -> bool {
    match s {
        Some(b) => {
            &&& b.id is None
            &&& b.button.data.label@ == "Next\n(Vol)"@
            &&& b.button.data.notification is None
            &&& b.button.track is None
            &&& b.button.on_tap == Some(ButtonBehavior::Rotate)
            &&& b.button.on_hold == Some(ButtonBehavior::ResetOffset)
        },
        None => false,
    }
}

/// Lays out the volume-control screen: the volume buttons in the first
/// column of the two top rows, then empty slots, and a bottom row of back
/// slot, unfiltered playing region and next/rotate slot.
#[verifier::loop_isolation(false)]
#[verifier::rlimit(60)]
pub fn layout_volume_control_page(
    arena: &Vec<Button>,
    vol_up: usize,
    vol_down: usize,
    playing: &PlayingView,
    geo: &Geometry,
    start_page: PageId,
) -> (r: Vec<Option<ButtonRef>>)
    requires
        geo.wf(),
        vol_up < arena@.len(),
        vol_down < arena@.len(),
        forall|i: int|
            0 <= i < playing.buttons@.len() ==> #[trigger] playing.buttons@[i] < arena@.len(),
    ensures
        vol_grid_ok(
            r@,
            arena@,
            vol_up,
            vol_down,
            playing.buttons@,
            playing.offset as nat,
            *geo,
            start_page,
        ),
{
    proof {
        geo.lemma_regions_fill_grid();
    }
    let ghost poff = playing.offset as nat;
    let ghost rot = rotated(playing.buttons@, poff);
    let ghost vd = vol_dynamic_ids(playing.buttons@, poff, geo.n_dynamic as nat);

    let mut page: Vec<Option<ButtonRef>> = Vec::new();

    // First row: volume up, then empty slots.
    page.push(Some(ButtonRef { id: Some(vol_up), button: arena[vol_up].clone() }));
    let mut c: usize = 1;
    while c < geo.cols
        invariant
            1 <= c <= geo.cols,
            page@.len() == c as int,
            slot_is(arena@, page@[0], vol_up),
            forall|i: int| 1 <= i < c ==> #[trigger] page@[i] is None,
        decreases geo.cols - c,
    {
        page.push(None);
        c += 1;
    }

    // Second row: volume down, then empty slots.
    page.push(Some(ButtonRef { id: Some(vol_down), button: arena[vol_down].clone() }));
    let mut c2: usize = 1;
    while c2 < geo.cols
        invariant
            1 <= c2 <= geo.cols,
            page@.len() == geo.cols + c2,
            slot_is(arena@, page@[0], vol_up),
            slot_is(arena@, page@[geo.cols as int], vol_down),
            forall|i: int|
                0 <= i < page@.len() && i != 0 && i != geo.cols ==> #[trigger] page@[i] is None,
        decreases geo.cols - c2,
    {
        page.push(None);
        c2 += 1;
    }

    // Remaining rows above the bottom row stay empty.
    let mut f: usize = 2 * geo.cols;
    while f < geo.n_content
        invariant
            2 * geo.cols <= f <= geo.n_content,
            page@.len() == f as int,
            slot_is(arena@, page@[0], vol_up),
            slot_is(arena@, page@[geo.cols as int], vol_down),
            forall|i: int|
                0 <= i < page@.len() && i != 0 && i != geo.cols ==> #[trigger] page@[i] is None,
        decreases geo.n_content - f,
    {
        page.push(None);
        f += 1;
    }

    // Bottom row: back slot.
    page.push(
        Some(
            ButtonRef {
                id: None,
                button: Button {
                    data: ButtonData { label: String::from_str("Back"), notification: None },
                    track: None,
                    on_tap: Some(ButtonBehavior::Pop),
                    on_hold: Some(ButtonBehavior::Goto(start_page)),
                },
            },
        ),
    );

    // Bottom row: the playing set, rotated, unfiltered.
    let plen = playing.buttons.len();
    let k0: usize = if playing.offset < plen {
        playing.offset
    } else {
        plen
    };
    let dcount: usize = if plen < geo.n_dynamic {
        plen
    } else {
        geo.n_dynamic
    };
    proof {
        assert(rot.len() == plen);
        assert(vd.len() == dcount);
    }
    let mut m: usize = 0;
    while m < geo.n_dynamic
        invariant
            m <= geo.n_dynamic,
            page@.len() == geo.n_content + 1 + m,
            slot_is(arena@, page@[0], vol_up),
            slot_is(arena@, page@[geo.cols as int], vol_down),
            forall|i: int|
                0 <= i < geo.n_content && i != 0 && i != geo.cols ==> #[trigger] page@[i] is None,
            is_back_slot(page@[geo.n_content as int], start_page),
            forall|q: int|
                0 <= q < m && q < dcount ==> slot_is(
                    arena@,
                    #[trigger] page@[geo.n_content + 1 + q],
                    vd[q],
                ),
            forall|q: int|
                dcount <= q < m ==> #[trigger] page@[geo.n_content + 1 + q] is None,
        decreases geo.n_dynamic - m,
    {
        if m < dcount {
            let idx = if m < plen - k0 {
                playing.buttons[k0 + m]
            } else {
                playing.buttons[m - (plen - k0)]
            };
            proof {
                assert(idx == rot[m as int]);
                assert(vd[m as int] == rot[m as int]);
            }
            page.push(Some(ButtonRef { id: Some(idx), button: arena[idx].clone() }));
        } else {
            page.push(None);
        }
        m += 1;
    }

    // Bottom row: next/rotate slot.
    page.push(
        Some(
            ButtonRef {
                id: None,
                button: Button {
                    data: ButtonData {
                        label: String::from_str("Next\n(Vol)"),
                        notification: None,
                    },
                    track: None,
                    on_tap: Some(ButtonBehavior::Rotate),
                    on_hold: Some(ButtonBehavior::ResetOffset),
                },
            },
        ),
    );
    proof {
        assert(page@.len() == geo.key_count());
    }
    page
}

} // verus!
