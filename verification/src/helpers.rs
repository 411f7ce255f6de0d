//! Small byte-string utilities shared by the collector and the formatter:
//! basename extraction for app names and the boolean-ish label parser.

use vstd::prelude::*;

verus! {

/// The path separator byte `/`.
pub open spec fn is_sep(b: u8) -> bool {
    b == 47
}

/// The part of `s` after the last `/`, or all of `s` when it has none.
pub open spec fn basename_spec(s: Seq<u8>) -> Seq<u8>
    decreases s.len(),
{
    if s.len() == 0 {
        s
    } else if is_sep(s.last()) {
        Seq::empty()
    } else {
        basename_spec(s.drop_last()).push(s.last())
    }
}

proof fn lemma_basename_is_suffix(s: Seq<u8>, cut: int)
    requires
        0 <= cut <= s.len(),
        forall|k: int| cut <= k < s.len() ==> !is_sep(s[k]),
        cut > 0 ==> is_sep(s[cut - 1]),
    ensures
        basename_spec(s) == s.skip(cut),
    decreases s.len(),
{
    if s.len() == cut {
        if cut == 0 {
            assert(basename_spec(s) =~= s.skip(0));
        } else {
            assert(is_sep(s.last()));
            assert(basename_spec(s) =~= s.skip(cut));
        }
    } else {
        assert(!is_sep(s.last()));
        lemma_basename_is_suffix(s.drop_last(), cut);
        assert(basename_spec(s) =~= s.skip(cut)) by {
            assert(s.drop_last().skip(cut) =~= s.skip(cut).drop_last());
        }
    }
}

/// Basename of a path: the segment after the last separator. Used to derive
/// a static syslog app name from a container's entrypoint path.
pub fn file_name_from_str(s: &[u8]) -> (r: Vec<u8>)
    ensures
        r@ == basename_spec(s@),
{
    let mut cut: usize = s.len();
    while cut > 0 && s[cut - 1] != 47
        invariant
            0 <= cut <= s.len(),
            forall|k: int| cut <= k < s@.len() ==> !is_sep(s@[k]),
        decreases cut,
    {
        cut = cut - 1;
    }
    proof {
        lemma_basename_is_suffix(s@, cut as int);
    }
    let mut r: Vec<u8> = Vec::new();
    let mut i: usize = cut;
    while i < s.len()
        invariant
            cut <= i <= s.len(),
            r@ == s@.subrange(cut as int, i as int),
        decreases s.len() - i,
    {
        r.push(s[i]);
        i = i + 1;
    }
    assert(s@.subrange(cut as int, s@.len() as int) =~= s@.skip(cut as int));
    r
}

/// ASCII lower-casing of one byte.
pub open spec fn lower_byte(b: u8) -> u8 {
    if 65 <= b <= 90 {
        (b + 32) as u8
    } else {
        b
    }
}

/// ASCII whitespace: the single-byte whitespace characters.
pub open spec fn is_space(b: u8) -> bool {
    b == 32 || 9 <= b <= 13
}

/// The length of the UTF-8-encoded whitespace character that `s` begins
/// with, or zero when it begins with none. Whitespace is Unicode's: the
/// ASCII set, next line and no-break space (two-byte), and the ogham space
/// mark, the en-quad-through-hair-space run, the line and paragraph
/// separators, narrow no-break space, medium mathematical space and
/// ideographic space (three-byte).
pub open spec fn ws_head_len(s: Seq<u8>) -> int {
    if s.len() >= 1 && is_space(s[0]) {
        1
    } else if s.len() >= 2 && s[0] == 194 && (s[1] == 133 || s[1] == 160) {
        2
    } else if s.len() >= 3 && s[0] == 225 && s[1] == 154 && s[2] == 128 {
        3
    } else if s.len() >= 3 && s[0] == 226 && s[1] == 128 && (128 <= s[2] <= 138 || s[2] == 168
        || s[2] == 169 || s[2] == 175) {
        3
    } else if s.len() >= 3 && s[0] == 226 && s[1] == 129 && s[2] == 159 {
        3
    } else if s.len() >= 3 && s[0] == 227 && s[1] == 128 && s[2] == 128 {
        3
    } else {
        0
    }
}

/// The length of the UTF-8-encoded whitespace character that `s` ends
/// with, or zero: the same set as [`ws_head_len`], read from the back.
pub open spec fn ws_tail_len(s: Seq<u8>) -> int {
    let n = s.len() as int;
    if n >= 1 && is_space(s[n - 1]) {
        1
    } else if n >= 2 && s[n - 2] == 194 && (s[n - 1] == 133 || s[n - 1] == 160) {
        2
    } else if n >= 3 && s[n - 3] == 225 && s[n - 2] == 154 && s[n - 1] == 128 {
        3
    } else if n >= 3 && s[n - 3] == 226 && s[n - 2] == 128 && (128 <= s[n - 1] <= 138 || s[n - 1]
        == 168 || s[n - 1] == 169 || s[n - 1] == 175) {
        3
    } else if n >= 3 && s[n - 3] == 226 && s[n - 2] == 129 && s[n - 1] == 159 {
        3
    } else if n >= 3 && s[n - 3] == 227 && s[n - 2] == 128 && s[n - 1] == 128 {
        3
    } else {
        0
    }
}

/// `s` without leading whitespace characters.
pub open spec fn trim_left_spec(s: Seq<u8>) -> Seq<u8>
    decreases s.len(),
{
    if ws_head_len(s) > 0 {
        trim_left_spec(s.skip(ws_head_len(s)))
    } else {
        s
    }
}

/// `s` without trailing whitespace characters.
pub open spec fn trim_right_spec(s: Seq<u8>) -> Seq<u8>
    decreases s.len(),
{
    if ws_tail_len(s) > 0 {
        trim_right_spec(s.take(s.len() - ws_tail_len(s)))
    } else {
        s
    }
}

/// `s` lower-cased and trimmed of surrounding whitespace.
pub open spec fn canon_label(s: Seq<u8>) -> Seq<u8> {
    trim_right_spec(trim_left_spec(s.map_values(|b: u8| lower_byte(b))))
}

/// The byte strings accepted as "true" by [`bool_from_str`].
pub open spec fn is_truthy_word(t: Seq<u8>) -> bool {
    ||| t == seq![116u8, 114u8, 117u8, 101u8]  // "true"
    ||| t == seq![116u8]  // "t"
    ||| t == seq![49u8]  // "1"
    ||| t == seq![121u8, 101u8, 115u8]  // "yes"
    ||| t == seq![121u8]  // "y"
    ||| t == seq![111u8, 110u8]  // "on"
}

/// Whether a boolean-ish label value means "true": lower-cased and trimmed,
/// it must read `true`, `t`, `1`, `yes`, `y` or `on`.
pub open spec fn truthy_spec(s: Seq<u8>) -> bool {
    is_truthy_word(canon_label(s))
}

/// A copy of the byte range `[i, j)` of `s`.
pub fn bytes_range(s: &[u8], i: usize, j: usize) -> (r: Vec<u8>)
    requires
        i <= j <= s@.len(),
    ensures
        r@ == s@.subrange(i as int, j as int),
{
    let mut r: Vec<u8> = Vec::new();
    let mut k: usize = i;
    while k < j
        invariant
            i <= k <= j <= s@.len(),
            r@ == s@.subrange(i as int, k as int),
        decreases j - k,
    {
        proof {
            assert(s@.subrange(i as int, k + 1 as int) =~= s@.subrange(i as int, k as int).push(
                s@[k as int],
            ));
        }
        r.push(s[k]);
        k = k + 1;
    }
    r
}

/// A copy of all of `s`.
pub fn bytes_clone(s: &[u8]) -> (r: Vec<u8>)
    ensures
        r@ == s@,
{
    let r = bytes_range(s, 0, s.len());
    proof {
        assert(s@.subrange(0, s@.len() as int) =~= s@);
    }
    r
}

fn ws_head_at(s: &[u8], lo: usize) -> (w: usize)
    requires
        lo <= s@.len(),
    ensures
        w == ws_head_len(s@.skip(lo as int)),
        lo + w <= s@.len(),
{
    let rem = s.len() - lo;
    proof {
        let t = s@.skip(lo as int);
        assert(t.len() == s@.len() - lo);
        if t.len() >= 1 {
            assert(t[0] == s@[lo as int]);
        }
        if t.len() >= 2 {
            assert(t[1] == s@[lo + 1]);
        }
        if t.len() >= 3 {
            assert(t[2] == s@[lo + 2]);
        }
    }
    if rem >= 1 && (s[lo] == 32 || (9 <= s[lo] && s[lo] <= 13)) {
        1
    } else if rem >= 2 && s[lo] == 194 && (s[lo + 1] == 133 || s[lo + 1] == 160) {
        2
    } else if rem >= 3 && s[lo] == 225 && s[lo + 1] == 154 && s[lo + 2] == 128 {
        3
    } else if rem >= 3 && s[lo] == 226 && s[lo + 1] == 128 && ((128 <= s[lo + 2] && s[lo + 2]
        <= 138) || s[lo + 2] == 168 || s[lo + 2] == 169 || s[lo + 2] == 175) {
        3
    } else if rem >= 3 && s[lo] == 226 && s[lo + 1] == 129 && s[lo + 2] == 159 {
        3
    } else if rem >= 3 && s[lo] == 227 && s[lo + 1] == 128 && s[lo + 2] == 128 {
        3
    } else {
        0
    }
}

fn ws_tail_at(s: &[u8], lo: usize, hi: usize) -> (w: usize)
    requires
        lo <= hi <= s@.len(),
    ensures
        w == ws_tail_len(s@.subrange(lo as int, hi as int)),
        w <= hi - lo,
{
    proof {
        let t = s@.subrange(lo as int, hi as int);
        assert(t.len() == hi - lo);
        if t.len() >= 1 {
            assert(t[t.len() - 1] == s@[hi - 1]);
        }
        if t.len() >= 2 {
            assert(t[t.len() - 2] == s@[hi - 2]);
        }
        if t.len() >= 3 {
            assert(t[t.len() - 3] == s@[hi - 3]);
        }
    }
    let n = hi - lo;
    if n >= 1 && (s[hi - 1] == 32 || (9 <= s[hi - 1] && s[hi - 1] <= 13)) {
        1
    } else if n >= 2 && s[hi - 2] == 194 && (s[hi - 1] == 133 || s[hi - 1] == 160) {
        2
    } else if n >= 3 && s[hi - 3] == 225 && s[hi - 2] == 154 && s[hi - 1] == 128 {
        3
    } else if n >= 3 && s[hi - 3] == 226 && s[hi - 2] == 128 && ((128 <= s[hi - 1] && s[hi - 1]
        <= 138) || s[hi - 1] == 168 || s[hi - 1] == 169 || s[hi - 1] == 175) {
        3
    } else if n >= 3 && s[hi - 3] == 226 && s[hi - 2] == 129 && s[hi - 1] == 159 {
        3
    } else if n >= 3 && s[hi - 3] == 227 && s[hi - 2] == 128 && s[hi - 1] == 128 {
        3
    } else {
        0
    }
}

/// Byte-for-byte equality of two slices.
pub fn bytes_eq(a: &[u8], b: &[u8]) -> (r: bool)
    ensures
        r <==> a@ == b@,
{
    if a.len() != b.len() {
        assert(a@ != b@) by {
            assert(a@.len() != b@.len());
        }
        return false;
    }
    let mut i: usize = 0;
    while i < a.len()
        invariant
            0 <= i <= a.len(),
            a.len() == b.len(),
            forall|k: int| 0 <= k < i ==> a@[k] == b@[k],
        decreases a.len() - i,
    {
        if a[i] != b[i] {
            return false;
        }
        i = i + 1;
    }
    assert(a@ =~= b@);
    true
}

/// Parses a boolean-ish label value: case-insensitive, surrounding
/// whitespace ignored, accepting `true`, `t`, `1`, `yes`, `y` and `on`.
pub fn bool_from_str(s: &[u8]) -> (r: bool)
    ensures
        r <==> truthy_spec(s@),
{
    let mut low: Vec<u8> = Vec::new();
    let mut i: usize = 0;
    while i < s.len()
        invariant
            0 <= i <= s.len(),
            low@ == s@.subrange(0, i as int).map_values(|b: u8| lower_byte(b)),
        decreases s.len() - i,
    {
        let b = s[i];
        let lb = if 65 <= b && b <= 90 {
            b + 32
        } else {
            b
        };
        low.push(lb);
        proof {
            assert(s@.subrange(0, i + 1 as int).map_values(|b: u8| lower_byte(b)) =~= s@
                .subrange(0, i as int)
                .map_values(|b: u8| lower_byte(b))
                .push(lower_byte(s@[i as int])));
        }
        i = i + 1;
    }
    proof {
        assert(s@.subrange(0, s@.len() as int) =~= s@);
    }
    let ghost full: Seq<u8> = s@.map_values(|b: u8| lower_byte(b));
    proof {
        assert(full.skip(0) =~= full);
    }
    let cap = low.len();
    let mut lo: usize = 0;
    let mut w: usize = ws_head_at(low.as_slice(), 0);
    while w > 0
        invariant
            0 <= lo <= low@.len(),
            low@ == full,
            cap == low@.len(),
            w == ws_head_len(full.skip(lo as int)),
            lo + w <= cap,
            trim_left_spec(full) == trim_left_spec(full.skip(lo as int)),
        decreases low@.len() - lo,
    {
        proof {
            assert(full.skip(lo as int).skip(w as int) =~= full.skip(lo + w));
        }
        lo = lo + w;
        w = ws_head_at(low.as_slice(), lo);
    }
    proof {
        assert(trim_left_spec(full.skip(lo as int)) == full.skip(lo as int));
    }
    let ghost left: Seq<u8> = full.skip(lo as int);
    let mut hi: usize = low.len();
    let mut tw: usize = ws_tail_at(low.as_slice(), lo, hi);
    while tw > 0
        invariant
            lo <= hi <= low@.len(),
            low@ == full,
            left == full.skip(lo as int),
            trim_left_spec(full) == left,
            tw == ws_tail_len(full.subrange(lo as int, hi as int)),
            tw <= hi - lo,
            trim_right_spec(left) == trim_right_spec(full.subrange(lo as int, hi as int)),
        decreases hi,
    {
        proof {
            let t = full.subrange(lo as int, hi as int);
            assert(t.take(t.len() - tw) =~= full.subrange(lo as int, hi - tw));
        }
        hi = hi - tw;
        tw = ws_tail_at(low.as_slice(), lo, hi);
    }
    proof {
        assert(full.subrange(lo as int, low@.len() as int) =~= left);
        let t = full.subrange(lo as int, hi as int);
        assert(trim_right_spec(t) == t);
        assert(canon_label(s@) == t);
    }
    let mut word: Vec<u8> = Vec::new();
    let mut k: usize = lo;
    while k < hi
        invariant
            lo <= k <= hi <= low.len(),
            low@ == full,
            word@ == full.subrange(lo as int, k as int),
        decreases hi - k,
    {
        word.push(low[k]);
        k = k + 1;
    }
    let wt: &[u8] = word.as_slice();
    let r = bytes_eq(wt, &[116u8, 114u8, 117u8, 101u8]) || bytes_eq(wt, &[116u8]) || bytes_eq(
        wt,
        &[49u8],
    ) || bytes_eq(wt, &[121u8, 101u8, 115u8]) || bytes_eq(wt, &[121u8]) || bytes_eq(
        wt,
        &[111u8, 110u8],
    );
    proof {
        assert(seq![116u8, 114u8, 117u8, 101u8] =~= [116u8, 114u8, 117u8, 101u8]@);
        assert(seq![116u8] =~= [116u8]@);
        assert(seq![49u8] =~= [49u8]@);
        assert(seq![121u8, 101u8, 115u8] =~= [121u8, 101u8, 115u8]@);
        assert(seq![121u8] =~= [121u8]@);
        assert(seq![111u8, 110u8] =~= [111u8, 110u8]@);
    }
    r
}

/// Seconds since the unix epoch, read from the system clock — never
/// negative. The initial watermark of every collector.
pub fn current_timestamp() -> (r: i64)
    ensures
        crate::clock::ts_in_range(r as int),
        r >= 0,
{
    crate::clock::now_utc().secs
}

} // verus!
