//! Device classification: pure, ordered string heuristics over the
//! lowercased device name (exclusions before inclusions), the device
//! descriptor they produce, and the selection policy that picks one
//! descriptor out of a scan. Also the name rule that accepts a PDF
//! file argument.
//!
//! All rules work on the name's bytes, lowercased ASCII-wise, so a
//! caller hands in the raw bytes of the name and every match is stated
//! exactly over them.

use vstd::prelude::*;

verus! {

/// ASCII code of 'A'.
pub const UPPER_A: u8 = 65;

/// ASCII code of 'Z'.
pub const UPPER_Z: u8 = 90;

/// Distance from an ASCII upper-case letter to its lower-case form.
pub const CASE_GAP: u8 = 32;

/// `b` with an ASCII upper-case letter folded to lower case; any
/// other byte unchanged.
pub open spec fn lower_byte(b: u8) -> u8 {
    if UPPER_A <= b && b <= UPPER_Z {
        (b + CASE_GAP) as u8
    } else {
        b
    }
}

/// `s` with every ASCII upper-case letter folded to lower case.
pub open spec fn lower_seq(s: Seq<u8>) -> Seq<u8> {
    s.map_values(|b: u8| lower_byte(b))
}

/// The needle stands in the haystack starting at position `i`.
pub open spec fn match_at(hay: Seq<u8>, needle: Seq<u8>, i: int) -> bool {
    0 <= i && i + needle.len() <= hay.len() && hay.subrange(i, i + needle.len()) == needle
}

/// The needle stands somewhere in the haystack.
pub open spec fn contains_seq(hay: Seq<u8>, needle: Seq<u8>) -> bool {
    exists|i: int| match_at(hay, needle, i)
}

/// ASCII-lowercase a byte string.
pub fn to_lower(name: &[u8]) -> (r: Vec<u8>)
    ensures
        r@ == lower_seq(name@),
{
    let mut r: Vec<u8> = Vec::new();
    let mut i: usize = 0;
    while i < name.len()
        invariant
            i <= name@.len(),
            r@.len() == i,
            forall|k: int| 0 <= k < i ==> r@[k] == lower_byte(name@[k]),
        decreases name@.len() - i,
    {
        let b = name[i];
        if UPPER_A <= b && b <= UPPER_Z {
            r.push(b + CASE_GAP);
        } else {
            r.push(b);
        }
        i = i + 1;
    }
    proof {
        assert(r@ =~= lower_seq(name@));
    }
    r
}

/// Substring search: does the needle stand anywhere in the haystack?
pub fn contains_sub(hay: &[u8], needle: &[u8]) -> (r: bool)
    ensures
        r == contains_seq(hay@, needle@),
{
    let n = needle.len();
    let hlen = hay.len();
    if n == 0 {
        proof {
            assert(hay@.subrange(0, 0) =~= needle@);
            assert(match_at(hay@, needle@, 0));
        }
        return true;
    }
    if n > hlen {
        proof {
            assert(forall|i: int| !match_at(hay@, needle@, i));
        }
        return false;
    }
    let last = hlen - n;
    let mut i: usize = 0;
    while i <= last
        invariant
            n == needle@.len(),
            hlen == hay@.len(),
            1 <= n <= hlen,
            last == hlen - n,
            i <= last + 1,
            forall|k: int| 0 <= k < i ==> !match_at(hay@, needle@, k),
        decreases last - i + 1,
    {
        let mut j: usize = 0;
        let mut hit = true;
        while j < n
            invariant
                n == needle@.len(),
                hlen == hay@.len(),
                i + n <= hlen,
                j <= n,
                hit ==> forall|l: int| 0 <= l < j ==> hay@[i + l] == needle@[l],
                !hit ==> !match_at(hay@, needle@, i as int),
            decreases n - j,
        {
            if hay[i + j] != needle[j] {
                proof {
                    assert(hay@.subrange(i as int, i + n)[j as int] == hay@[i + j]);
                    assert(hay@.subrange(i as int, i + n) != needle@);
                }
                hit = false;
                j = n;
            } else {
                j = j + 1;
            }
        }
        if hit {
            proof {
                assert(hay@.subrange(i as int, i + n) =~= needle@);
                assert(match_at(hay@, needle@, i as int));
            }
            return true;
        }
        i = i + 1;
    }
    proof {
        assert(forall|k: int| match_at(hay@, needle@, k) ==> 0 <= k <= last);
    }
    false
}

/// The bytes of "pen".
pub open spec fn token_pen() -> Seq<u8> {
    seq![('p' as u8), ('e' as u8), ('n' as u8)]
}

/// The bytes of "stylus".
pub open spec fn token_stylus() -> Seq<u8> {
    seq![('s' as u8), ('t' as u8), ('y' as u8), ('l' as u8), ('u' as u8), ('s' as u8)]
}

/// The bytes of "touchpad".
pub open spec fn token_touchpad() -> Seq<u8> {
    seq![
        ('t' as u8),
        ('o' as u8),
        ('u' as u8),
        ('c' as u8),
        ('h' as u8),
        ('p' as u8),
        ('a' as u8),
        ('d' as u8),
    ]
}

/// The bytes of "mouse".
pub open spec fn token_mouse() -> Seq<u8> {
    seq![('m' as u8), ('o' as u8), ('u' as u8), ('s' as u8), ('e' as u8)]
}

/// The bytes of "touch".
pub open spec fn token_touch() -> Seq<u8> {
    seq![('t' as u8), ('o' as u8), ('u' as u8), ('c' as u8), ('h' as u8)]
}

/// The bytes of "finger".
pub open spec fn token_finger() -> Seq<u8> {
    seq![('f' as u8), ('i' as u8), ('n' as u8), ('g' as u8), ('e' as u8), ('r' as u8)]
}

/// The bytes of "elan", a known touch-controller vendor token.
pub open spec fn token_elan() -> Seq<u8> {
    seq![('e' as u8), ('l' as u8), ('a' as u8), ('n' as u8)]
}

/// The lowercased name reads as a pen digitizer: it mentions a pen or
/// a stylus.
pub open spec fn spec_is_pen(name: Seq<u8>) -> bool {
    contains_seq(lower_seq(name), token_pen()) || contains_seq(lower_seq(name), token_stylus())
}

/// The lowercased name reads as a touch surface: it mentions touch, a
/// finger, or a known touch-controller vendor, and is neither a
/// touchpad nor a mouse (the exclusions win over the inclusions).
pub open spec fn spec_is_touch(name: Seq<u8>) -> bool {
    let l = lower_seq(name);
    !contains_seq(l, token_touchpad()) && !contains_seq(l, token_mouse()) && (contains_seq(
        l,
        token_touch(),
    ) || contains_seq(l, token_finger()) || contains_seq(l, token_elan()))
}

/// Classify a device name (given as its raw bytes): the returned pair
/// is (is-pen, is-touch). Pure and total; case-insensitive through
/// ASCII lowercasing; exclusions (touchpad, mouse) suppress the touch
/// flag before the inclusions are tried.
pub fn classify_device_name(name: &[u8]) -> (r: (bool, bool))
    ensures
        r.0 == spec_is_pen(name@),
        r.1 == spec_is_touch(name@),
{
    let lower = to_lower(name);
    let pen: Vec<u8> = vec![('p' as u8), ('e' as u8), ('n' as u8)];
    let stylus: Vec<u8> = vec![
        ('s' as u8),
        ('t' as u8),
        ('y' as u8),
        ('l' as u8),
        ('u' as u8),
        ('s' as u8),
    ];
    let touchpad: Vec<u8> = vec![
        ('t' as u8),
        ('o' as u8),
        ('u' as u8),
        ('c' as u8),
        ('h' as u8),
        ('p' as u8),
        ('a' as u8),
        ('d' as u8),
    ];
    let mouse: Vec<u8> = vec![('m' as u8), ('o' as u8), ('u' as u8), ('s' as u8), ('e' as u8)];
    let touch: Vec<u8> = vec![('t' as u8), ('o' as u8), ('u' as u8), ('c' as u8), ('h' as u8)];
    let finger: Vec<u8> = vec![
        ('f' as u8),
        ('i' as u8),
        ('n' as u8),
        ('g' as u8),
        ('e' as u8),
        ('r' as u8),
    ];
    let elan: Vec<u8> = vec![('e' as u8), ('l' as u8), ('a' as u8), ('n' as u8)];
    proof {
        assert(pen@ =~= token_pen());
        assert(stylus@ =~= token_stylus());
        assert(touchpad@ =~= token_touchpad());
        assert(mouse@ =~= token_mouse());
        assert(touch@ =~= token_touch());
        assert(finger@ =~= token_finger());
        assert(elan@ =~= token_elan());
    }
    let is_pen = contains_sub(lower.as_slice(), pen.as_slice()) || contains_sub(
        lower.as_slice(),
        stylus.as_slice(),
    );
    let is_touchpad = contains_sub(lower.as_slice(), touchpad.as_slice());
    let is_mouse = contains_sub(lower.as_slice(), mouse.as_slice());
    let is_touch = !is_touchpad && !is_mouse && (contains_sub(lower.as_slice(), touch.as_slice())
        || contains_sub(lower.as_slice(), finger.as_slice()) || contains_sub(
        lower.as_slice(),
        elan.as_slice(),
    ));
    (is_pen, is_touch)
}

/// One candidate input device as the directory scanner reports it:
/// its human-readable name, its device-node path, and the classifier's
/// two flags for that name.
#[derive(Clone, Debug)]
pub struct InputDeviceInfo {
    pub name: String,
    pub path: String,
    pub is_pen: bool,
    pub is_touch: bool,
}

/// Selection policy over a scan result: the index of the first
/// pen-classified device; failing that, of the first touch-classified
/// device; failing both, none. Deterministic in the scan order.
pub fn select_stylus_device(devices: &Vec<InputDeviceInfo>) -> (r: Option<usize>)
    ensures
        r is None <==> forall|j: int|
            0 <= j < devices@.len() ==> !(#[trigger] devices@[j]).is_pen && !devices@[j].is_touch,
        r matches Some(i) ==> i < devices@.len() && (devices@[i as int].is_pen
            || devices@[i as int].is_touch),
        r matches Some(i) ==> (devices@[i as int].is_pen ==> forall|j: int|
            0 <= j < i ==> !(#[trigger] devices@[j]).is_pen),
        r matches Some(i) ==> (!devices@[i as int].is_pen ==> (forall|j: int|
            0 <= j < devices@.len() ==> !(#[trigger] devices@[j]).is_pen) && (forall|j: int|
            0 <= j < i ==> !(#[trigger] devices@[j]).is_touch)),
{
    let n = devices.len();
    let mut i: usize = 0;
    while i < n
        invariant
            n == devices@.len(),
            i <= n,
            forall|j: int| 0 <= j < i ==> !(#[trigger] devices@[j]).is_pen,
        decreases n - i,
    {
        if devices[i].is_pen {
            return Some(i);
        }
        i = i + 1;
    }
    let mut k: usize = 0;
    while k < n
        invariant
            n == devices@.len(),
            k <= n,
            forall|j: int| 0 <= j < n ==> !(#[trigger] devices@[j]).is_pen,
            forall|j: int| 0 <= j < k ==> !(#[trigger] devices@[j]).is_touch,
        decreases n - k,
    {
        if devices[k].is_touch {
            return Some(k);
        }
        k = k + 1;
    }
    None
}

} // verus!
