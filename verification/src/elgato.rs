//! Value types of the profile-archive import: playback action settings,
//! fade selection, button state entries and grid positions.
//!
//! The archive reading itself stays outside the library; these are the
//! plain shapes its records decode into, with the position parser and the
//! fade selection logic verified here.

use vstd::prelude::*;
use vstd::view::View as _;

verus! {

/// What a playback action does when its button is tapped again.
#[derive(Debug, Clone, Copy, PartialEq, Eq, Structural)]
pub enum AudioActionType {
    PlayStop,
    PlayOverlap,
    PlayRestart,
    LoopStop,
}

/// Which ends of a sound get a fade.
#[derive(Debug, Clone, Copy, PartialEq, Eq, Structural)]
pub enum FadeType {
    NoFade,
    In,
    Out,
    InOut,
}

impl FadeType {
    /// The value when a fade-in applies, else nothing.
    pub fn when_in<T>(&self, value: T) -> (r: Option<T>)
        ensures
            match *self {
                FadeType::In | FadeType::InOut => r == Some(value),
                FadeType::Out | FadeType::NoFade => r is None,
            },
    {
        match self {
            FadeType::In | FadeType::InOut => Some(value),
            FadeType::Out | FadeType::NoFade => None,
        }
    }

    /// The value when a fade-out applies, else nothing.
    pub fn when_out<T>(&self, value: T) -> (r: Option<T>)
        ensures
            match *self {
                FadeType::Out | FadeType::InOut => r == Some(value),
                FadeType::In | FadeType::NoFade => r is None,
            },
    {
        match self {
            FadeType::Out | FadeType::InOut => Some(value),
            FadeType::In | FadeType::NoFade => None,
        }
    }
}

/// Settings of one play-audio action as imported: fade length in seconds,
/// raw volume (50 is unity), the sound's path, and the action and fade
/// kinds.
#[derive(Debug)]
pub struct AudioSettings {
    pub fade_len: u32,
    pub volume: u8,
    pub path: String,
    pub action_type: AudioActionType,
    pub fade_type: FadeType,
}

impl Clone for AudioSettings {
    fn clone(&self) -> (r: Self)
        ensures
            r == *self,
    {
        AudioSettings {
            fade_len: self.fade_len,
            volume: self.volume,
            path: self.path.clone(),
            action_type: self.action_type,
            fade_type: self.fade_type,
        }
    }
}

/// One button state of an imported action: whether its title is shown, and
/// the title if any.
#[derive(Debug)]
pub struct State {
    pub show_title: bool,
    pub title: Option<String>,
}

impl Clone for State {
    fn clone(&self) -> (r: Self)
        ensures
            r == *self,
    {
        State {
            show_title: self.show_title,
            title: match &self.title {
                Some(t) => Some(t.clone()),
                None => None,
            },
        }
    }
}

/// A key position in an imported page: column, then row.
#[derive(Debug, Clone, Copy, PartialEq, Eq, Hash, Structural)]
pub struct Pos(pub u8, pub u8);

pub open spec fn is_digit(c: char) -> bool {
    48 <= c as int <= 57
}

pub open spec fn digit_val(c: char) -> int {
    c as int - 48
}

pub open spec fn all_digits(s: Seq<char>) -> bool {
    forall|i: int| 0 <= i < s.len() ==> is_digit(#[trigger] s[i])
}

/// The number a digit string denotes.
pub open spec fn dec_value(s: Seq<char>) -> int
    decreases s.len(),
{
    if s.len() == 0 {
        0
    } else {
        dec_value(s.drop_last()) * 10 + digit_val(s.last())
    }
}

/// A parsable coordinate: at least one digit, and small enough.
pub open spec fn u8_ok(s: Seq<char>) -> bool {
    s.len() >= 1 && all_digits(s) && dec_value(s) <= 255
}

/// The string has exactly one comma, at index `i`.
pub open spec fn single_comma_at(s: Seq<char>, i: int) -> bool {
    &&& 0 <= i < s.len()
    &&& s[i] == ','
    &&& forall|j: int| 0 <= j < s.len() && j != i ==> s[j] != ','
}

proof fn lemma_dec_value_nonneg(s: Seq<char>)
    requires
        all_digits(s),
    ensures
        dec_value(s) >= 0,
    decreases s.len(),
{
    if s.len() > 0 {
        assert(all_digits(s.drop_last()));
        lemma_dec_value_nonneg(s.drop_last());
    }
}

proof fn lemma_dec_value_monotone(s: Seq<char>, i: int)
    requires
        0 <= i <= s.len(),
        all_digits(s),
    ensures
        dec_value(s) >= dec_value(s.take(i)),
    decreases s.len() - i,
{
    if i < s.len() {
        assert(s.take(i + 1).drop_last() =~= s.take(i));
        assert(all_digits(s.take(i + 1)));
        assert(all_digits(s.take(i)));
        lemma_dec_value_nonneg(s.take(i));
        assert(dec_value(s.take(i + 1)) == dec_value(s.take(i)) * 10 + digit_val(s.take(i + 1)[i]));
        lemma_dec_value_monotone(s, i + 1);
    } else {
        assert(s.take(i) =~= s);
    }
}

/// Parses the digit substring `s[from..to]` as a coordinate.
#[verifier::loop_isolation(false)]
fn parse_coord(s: &str, from: usize, to: usize) -> (r: Option<u8>)
    requires
        from <= to <= s@.len(),
    ensures
        match r {
            Some(v) => u8_ok(s@.subrange(from as int, to as int)) && v == dec_value(
                s@.subrange(from as int, to as int),
            ),
            None => !u8_ok(s@.subrange(from as int, to as int)),
        },
{
    let ghost sub = s@.subrange(from as int, to as int);
    if to == from {
        return None;
    }
    let mut acc: u32 = 0;
    let mut i: usize = from;
    while i < to
        invariant
            from <= i <= to,
            all_digits(sub.take(i - from)),
            acc == dec_value(sub.take(i - from)),
            acc <= 255,
        decreases to - i,
    {
        let c = s.get_char(i);
        let u = c as u32;
        proof {
            assert(sub[i - from] == s@[i as int]);
        }
        if u < 48 || u > 57 {
            proof {
                assert(!is_digit(sub[i - from]));
            }
            return None;
        }
        let d = u - 48;
        acc = acc * 10 + d;
        proof {
            assert(sub.take(i - from + 1).drop_last() =~= sub.take(i - from));
            assert(sub.take(i - from + 1).last() == sub[i - from]);
            assert(all_digits(sub.take(i - from + 1)));
            assert(acc == dec_value(sub.take(i - from + 1)));
        }
        if acc > 255 {
            proof {
                if all_digits(sub) {
                    lemma_dec_value_monotone(sub, i - from + 1);
                }
            }
            return None;
        }
        i += 1;
    }
    proof {
        assert(sub.take(to - from) =~= sub);
    }
    Some(acc as u8)
}

impl Pos {
    /// Parses a position written as two coordinates with a comma between
    /// them. Rejects anything else, naming the part at fault.
    #[verifier::loop_isolation(false)]
    pub fn from_str(s: &str) -> (r: Result<Pos, String>)
        ensures
            match r {
                Ok(p) => exists|i: int|
                    {
                        &&& #[trigger] single_comma_at(s@, i)
                        &&& u8_ok(s@.take(i))
                        &&& u8_ok(s@.skip(i + 1))
                        &&& p.0 == dec_value(s@.take(i))
                        &&& p.1 == dec_value(s@.skip(i + 1))
                    },
                Err(m) => {
                    if !(exists|i: int| #[trigger] single_comma_at(s@, i)) {
                        m@ == "Invalid coordinate format"@
                    } else {
                        let i = choose|i: int| single_comma_at(s@, i);
                        if !u8_ok(s@.take(i)) {
                            m@ == "Invalid x coordinate"@
                        } else {
                            !u8_ok(s@.skip(i + 1)) && m@ == "Invalid y coordinate"@
                        }
                    }
                },
            },
    {
        let n = s.unicode_len();
        let mut ci: usize = 0;
        let mut count: usize = 0;
        let mut i: usize = 0;
        while i < n
            invariant
                i <= n,
                count <= i,
                count >= 1 ==> ci < i && s@[ci as int] == ',',
                count == 0 ==> forall|j: int| 0 <= j < i ==> s@[j] != ',',
                count == 1 ==> forall|j: int| 0 <= j < i && j != ci ==> s@[j] != ',',
                count >= 2 ==> exists|j1: int, j2: int|
                    #![trigger s@[j1], s@[j2]]
                    0 <= j1 < j2 < i && s@[j1] == ',' && s@[j2] == ',',
            decreases n - i,
        {
            if s.get_char(i) == ',' {
                if count == 0 {
                    ci = i;
                } else {
                    proof {
                        assert(s@[ci as int] == ',' && s@[i as int] == ',');
                    }
                }
                count += 1;
            }
            i += 1;
        }
        if count != 1 {
            proof {
                if exists|w: int| single_comma_at(s@, w) {
                    let w = choose|w: int| single_comma_at(s@, w);
                    if count == 0 {
                        assert(s@[w] != ',');
                    } else {
                        let (j1, j2) = choose|j1: int, j2: int|
                            #![trigger s@[j1], s@[j2]]
                            0 <= j1 < j2 < n && s@[j1] == ',' && s@[j2] == ',';
                        if j1 != w {
                            assert(s@[j1] != ',');
                        } else {
                            assert(s@[j2] != ',');
                        }
                    }
                }
            }
            return Err(String::from_str("Invalid coordinate format"));
        }
        proof {
            assert(single_comma_at(s@, ci as int));
            let w = choose|w: int| single_comma_at(s@, w);
            if w != ci {
                assert(s@[w] != ',');
            }
        }
        let x = match parse_coord(s, 0, ci) {
            Some(v) => v,
            None => {
                proof {
                    assert(s@.subrange(0, ci as int) =~= s@.take(ci as int));
                }
                return Err(String::from_str("Invalid x coordinate"));
            },
        };
        let y = match parse_coord(s, ci + 1, n) {
            Some(v) => v,
            None => {
                proof {
                    assert(s@.subrange(ci + 1, n as int) =~= s@.skip(ci + 1));
                }
                return Err(String::from_str("Invalid y coordinate"));
            },
        };
        proof {
            assert(s@.subrange(0, ci as int) =~= s@.take(ci as int));
            assert(s@.subrange(ci + 1, n as int) =~= s@.skip(ci + 1));
        }
        Ok(Pos(x, y))
    }
}

impl PartialOrd for Pos {
    /// Positions order by row, then by column.
    fn partial_cmp(&self, other: &Self) -> Option<core::cmp::Ordering> {
        if self.1 < other.1 {
            Some(core::cmp::Ordering::Less)
        } else if self.1 > other.1 {
            Some(core::cmp::Ordering::Greater)
        } else if self.0 < other.0 {
            Some(core::cmp::Ordering::Less)
        } else if self.0 > other.0 {
            Some(core::cmp::Ordering::Greater)
        } else {
            Some(core::cmp::Ordering::Equal)
        }
    }
}

impl vstd::std_specs::cmp::PartialOrdSpecImpl for Pos {
    open spec fn obeys_partial_cmp_spec() -> bool {
        true
    }

    open spec fn partial_cmp_spec(&self, other: &Self) -> Option<core::cmp::Ordering> {
        if self.1 < other.1 {
            Some(core::cmp::Ordering::Less)
        } else if self.1 > other.1 {
            Some(core::cmp::Ordering::Greater)
        } else if self.0 < other.0 {
            Some(core::cmp::Ordering::Less)
        } else if self.0 > other.0 {
            Some(core::cmp::Ordering::Greater)
        } else {
            Some(core::cmp::Ordering::Equal)
        }
    }
}

} // verus!
