//! Epoch/version/release tuples and the segment-wise ordering used to sort
//! package revisions.
use vstd::prelude::*;

verus! {

/// An ASCII decimal digit.
pub open spec fn is_digit(c: char) -> bool {
    '0' <= c && c <= '9'
}

/// An ASCII letter.
pub open spec fn is_alpha(c: char) -> bool {
    ('a' <= c && c <= 'z') || ('A' <= c && c <= 'Z')
}

/// A character of the class a run is made of: digits, or letters.
pub open spec fn in_class(c: char, digits: bool) -> bool {
    if digits {
        is_digit(c)
    } else {
        is_alpha(c)
    }
}

/// The length of the longest prefix of `s` made of one class.
pub open spec fn run_len(s: Seq<char>, digits: bool) -> nat
    decreases s.len(),
{
    if s.len() > 0 && in_class(s[0], digits) {
        1 + run_len(s.drop_first(), digits)
    } else {
        0
    }
}

/// A run is never longer than the sequence, and is non-empty when the first
/// character is of its class.
pub proof fn lemma_run_len_bound(s: Seq<char>, digits: bool)
    ensures
        run_len(s, digits) <= s.len(),
        s.len() > 0 && in_class(s[0], digits) ==> run_len(s, digits) >= 1,
    decreases s.len(),
{
    if s.len() > 0 && in_class(s[0], digits) {
        lemma_run_len_bound(s.drop_first(), digits);
    }
}

/// The maximal runs of digits and of letters in `s`, in order; every other
/// character only separates runs.
pub open spec fn segments(s: Seq<char>) -> Seq<Seq<char>>
    decreases s.len(),
{
    if s.len() == 0 {
        Seq::empty()
    } else if is_digit(s[0]) || is_alpha(s[0]) {
        let digits = is_digit(s[0]);
        let n = run_len(s, digits);
        proof {
            lemma_run_len_bound(s, digits);
        }
        seq![s.take(n as int)] + segments(s.skip(n as int))
    } else {
        segments(s.drop_first())
    }
}

/// Ordinal comparison of two character sequences; a proper prefix is smaller.
pub open spec fn lex_cmp(a: Seq<char>, b: Seq<char>) -> int
    decreases a.len(),
{
    if a.len() == 0 {
        if b.len() == 0 {
            0
        } else {
            -1
        }
    } else if b.len() == 0 {
        1
    } else if a[0] < b[0] {
        -1
    } else if a[0] > b[0] {
        1
    } else {
        lex_cmp(a.drop_first(), b.drop_first())
    }
}

/// `s` without its leading zeros.
pub open spec fn strip_zeros(s: Seq<char>) -> Seq<char>
    decreases s.len(),
{
    if s.len() > 0 && s[0] == '0' {
        strip_zeros(s.drop_first())
    } else {
        s
    }
}

/// Numeric comparison of two digit runs of any length.
pub open spec fn num_cmp(a: Seq<char>, b: Seq<char>) -> int {
    let x = strip_zeros(a);
    let y = strip_zeros(b);
    if x.len() < y.len() {
        -1
    } else if x.len() > y.len() {
        1
    } else {
        lex_cmp(x, y)
    }
}

/// A segment made of digits.
pub open spec fn is_numeric(s: Seq<char>) -> bool {
    s.len() > 0 && is_digit(s[0])
}

/// Comparison of two segments: a numeric segment is above an alphabetic one.
pub open spec fn seg_cmp(a: Seq<char>, b: Seq<char>) -> int {
    if is_numeric(a) {
        if is_numeric(b) {
            num_cmp(a, b)
        } else {
            1
        }
    } else if is_numeric(b) {
        -1
    } else {
        lex_cmp(a, b)
    }
}

/// Pairwise comparison of two segment lists. Where one list runs out first,
/// a numeric segment left on the other side makes that side greater and an
/// alphabetic one makes it smaller.
pub open spec fn segs_cmp(a: Seq<Seq<char>>, b: Seq<Seq<char>>) -> int
    decreases a.len(),
{
    if a.len() == 0 {
        if b.len() == 0 {
            0
        } else if is_numeric(b[0]) {
            -1
        } else {
            1
        }
    } else if b.len() == 0 {
        if is_numeric(a[0]) {
            1
        } else {
            -1
        }
    } else if seg_cmp(a[0], b[0]) != 0 {
        seg_cmp(a[0], b[0])
    } else {
        segs_cmp(a.drop_first(), b.drop_first())
    }
}

/// Comparison of two version (or release) strings.
pub open spec fn version_cmp(a: Seq<char>, b: Seq<char>) -> int {
    segs_cmp(segments(a), segments(b))
}

/// An epoch as it is compared: an empty epoch stands for `0`.
pub open spec fn norm_epoch(e: Seq<char>) -> Seq<char> {
    if e.len() == 0 {
        seq!['0']
    } else {
        e
    }
}

/// Comparison of two (epoch, version, release) tuples: epoch first, then
/// version, then release. The result is -1, 0 or 1.
pub open spec fn evr_cmp(a: (Seq<char>, Seq<char>, Seq<char>), b: (Seq<char>, Seq<char>, Seq<char>)) -> int {
    let e = version_cmp(norm_epoch(a.0), norm_epoch(b.0));
    let v = version_cmp(a.1, b.1);
    if e != 0 {
        e
    } else if v != 0 {
        v
    } else {
        version_cmp(a.2, b.2)
    }
}

proof fn lemma_lex_antisym(a: Seq<char>, b: Seq<char>)
    ensures
        lex_cmp(a, b) == -lex_cmp(b, a),
        -1 <= lex_cmp(a, b) <= 1,
        lex_cmp(a, b) == 0 <==> a == b,
    decreases a.len(),
{
    if a.len() > 0 && b.len() > 0 {
        lemma_lex_antisym(a.drop_first(), b.drop_first());
        if a[0] == b[0] && a.drop_first() == b.drop_first() {
            assert(a =~= seq![a[0]] + a.drop_first());
            assert(b =~= seq![b[0]] + b.drop_first());
        }
        if a == b {
            assert(a.drop_first() =~= b.drop_first());
        }
    } else if a.len() == 0 && b.len() == 0 {
        assert(a =~= b);
    }
}

proof fn lemma_lex_trans(a: Seq<char>, b: Seq<char>, c: Seq<char>)
    requires
        lex_cmp(a, b) <= 0,
        lex_cmp(b, c) <= 0,
    ensures
        lex_cmp(a, c) <= 0,
    decreases a.len(),
{
    if a.len() > 0 && b.len() > 0 && c.len() > 0 && a[0] == b[0] && b[0] == c[0] {
        lemma_lex_trans(a.drop_first(), b.drop_first(), c.drop_first());
    }
}

proof fn lemma_num_facts(a: Seq<char>, b: Seq<char>, c: Seq<char>)
    ensures
        num_cmp(a, b) == -num_cmp(b, a),
        -1 <= num_cmp(a, b) <= 1,
        num_cmp(a, b) <= 0 && num_cmp(b, c) <= 0 ==> num_cmp(a, c) <= 0,
{
    let (x, y, z) = (strip_zeros(a), strip_zeros(b), strip_zeros(c));
    lemma_lex_antisym(x, y);
    if num_cmp(a, b) <= 0 && num_cmp(b, c) <= 0 && x.len() == y.len() && y.len() == z.len() {
        lemma_lex_trans(x, y, z);
    }
}

proof fn lemma_seg_facts(a: Seq<char>, b: Seq<char>, c: Seq<char>)
    ensures
        seg_cmp(a, b) == -seg_cmp(b, a),
        -1 <= seg_cmp(a, b) <= 1,
        seg_cmp(a, b) <= 0 && seg_cmp(b, c) <= 0 ==> seg_cmp(a, c) <= 0,
{
    lemma_num_facts(a, b, c);
    lemma_lex_antisym(a, b);
    if seg_cmp(a, b) <= 0 && seg_cmp(b, c) <= 0 && !is_numeric(a) && !is_numeric(b) && !is_numeric(c) {
        lemma_lex_trans(a, b, c);
    }
}

/// All orderings of three segments at once, for the steps that mix `<` and `<=`.
proof fn lemma_seg_all(a: Seq<char>, b: Seq<char>, c: Seq<char>)
    ensures
        seg_cmp(a, b) == -seg_cmp(b, a),
        seg_cmp(b, c) == -seg_cmp(c, b),
        seg_cmp(a, c) == -seg_cmp(c, a),
        -1 <= seg_cmp(a, b) <= 1,
        -1 <= seg_cmp(b, c) <= 1,
        -1 <= seg_cmp(a, c) <= 1,
        seg_cmp(a, b) <= 0 && seg_cmp(b, c) <= 0 ==> seg_cmp(a, c) <= 0,
        seg_cmp(b, c) <= 0 && seg_cmp(c, a) <= 0 ==> seg_cmp(b, a) <= 0,
        seg_cmp(c, a) <= 0 && seg_cmp(a, b) <= 0 ==> seg_cmp(c, b) <= 0,
{
    lemma_seg_facts(a, b, c);
    lemma_seg_facts(b, c, a);
    lemma_seg_facts(c, a, b);
}

proof fn lemma_segs_antisym(a: Seq<Seq<char>>, b: Seq<Seq<char>>)
    ensures
        segs_cmp(a, b) == -segs_cmp(b, a),
        -1 <= segs_cmp(a, b) <= 1,
    decreases a.len(),
{
    if a.len() > 0 && b.len() > 0 {
        lemma_seg_facts(a[0], b[0], b[0]);
        lemma_segs_antisym(a.drop_first(), b.drop_first());
    }
}

proof fn lemma_segs_refl(a: Seq<Seq<char>>)
    ensures
        segs_cmp(a, a) == 0,
    decreases a.len(),
{
    if a.len() > 0 {
        lemma_lex_antisym(a[0], a[0]);
        lemma_lex_antisym(strip_zeros(a[0]), strip_zeros(a[0]));
        lemma_segs_refl(a.drop_first());
    }
}

proof fn lemma_segs_trans(a: Seq<Seq<char>>, b: Seq<Seq<char>>, c: Seq<Seq<char>>)
    requires
        segs_cmp(a, b) <= 0,
        segs_cmp(b, c) <= 0,
    ensures
        segs_cmp(a, c) <= 0,
    decreases a.len(),
{
    if a.len() > 0 && b.len() > 0 && c.len() > 0 {
        lemma_seg_all(a[0], b[0], c[0]);
        if seg_cmp(a[0], b[0]) == 0 && seg_cmp(b[0], c[0]) == 0 {
            lemma_segs_trans(a.drop_first(), b.drop_first(), c.drop_first());
        }
    }
}

/// The three facts that make a comparison a total preorder, for version strings.
proof fn lemma_version_all(a: Seq<char>, b: Seq<char>, c: Seq<char>)
    ensures
        version_cmp(a, a) == 0,
        version_cmp(a, b) == -version_cmp(b, a),
        -1 <= version_cmp(a, b) <= 1,
        version_cmp(a, b) <= 0 && version_cmp(b, c) <= 0 ==> version_cmp(a, c) <= 0,
{
    lemma_segs_refl(segments(a));
    lemma_segs_antisym(segments(a), segments(b));
    if version_cmp(a, b) <= 0 && version_cmp(b, c) <= 0 {
        lemma_segs_trans(segments(a), segments(b), segments(c));
    }
}

/// Every tuple is equal to itself under `evr_cmp`.
pub proof fn lemma_evr_cmp_reflexive(a: (Seq<char>, Seq<char>, Seq<char>))
    ensures
        evr_cmp(a, a) == 0,
{
    lemma_version_all(norm_epoch(a.0), norm_epoch(a.0), norm_epoch(a.0));
    lemma_version_all(a.1, a.1, a.1);
    lemma_version_all(a.2, a.2, a.2);
}

/// Swapping the operands of `evr_cmp` negates the result, which is always
/// -1, 0 or 1; so `a <= b` and `b <= a` together give `a == b` in this order.
pub proof fn lemma_evr_cmp_antisymmetric(
    a: (Seq<char>, Seq<char>, Seq<char>),
    b: (Seq<char>, Seq<char>, Seq<char>),
)
    ensures
        evr_cmp(a, b) == -evr_cmp(b, a),
        -1 <= evr_cmp(a, b) <= 1,
{
    lemma_version_all(norm_epoch(a.0), norm_epoch(b.0), norm_epoch(b.0));
    lemma_version_all(a.1, b.1, b.1);
    lemma_version_all(a.2, b.2, b.2);
}

proof fn lemma_version_perms(a: Seq<char>, b: Seq<char>, c: Seq<char>)
    ensures
        version_cmp(a, b) == -version_cmp(b, a),
        version_cmp(b, c) == -version_cmp(c, b),
        version_cmp(a, c) == -version_cmp(c, a),
        version_cmp(a, b) <= 0 && version_cmp(b, c) <= 0 ==> version_cmp(a, c) <= 0,
        version_cmp(b, c) <= 0 && version_cmp(c, a) <= 0 ==> version_cmp(b, a) <= 0,
        version_cmp(c, a) <= 0 && version_cmp(a, b) <= 0 ==> version_cmp(c, b) <= 0,
{
    lemma_version_all(a, b, c);
    lemma_version_all(b, c, a);
    lemma_version_all(c, a, b);
}

/// `evr_cmp` is transitive: `a <= b` and `b <= c` give `a <= c`.
pub proof fn lemma_evr_cmp_transitive(
    a: (Seq<char>, Seq<char>, Seq<char>),
    b: (Seq<char>, Seq<char>, Seq<char>),
    c: (Seq<char>, Seq<char>, Seq<char>),
)
    requires
        evr_cmp(a, b) <= 0,
        evr_cmp(b, c) <= 0,
    ensures
        evr_cmp(a, c) <= 0,
{
    lemma_version_perms(norm_epoch(a.0), norm_epoch(b.0), norm_epoch(c.0));
    lemma_version_perms(a.1, b.1, c.1);
    lemma_version_perms(a.2, b.2, c.2);
}

/// An (epoch, version, release) tuple. The epoch may be empty, which
/// compares as `0`.
#[derive(Debug)]
pub struct EVR {
    pub epoch: String,
    pub version: String,
    pub release: String,
}

impl View for EVR {
    type V = (Seq<char>, Seq<char>, Seq<char>);

    open spec fn view(&self) -> (Seq<char>, Seq<char>, Seq<char>) {
        (self.epoch@, self.version@, self.release@)
    }
}

fn chars_of(s: &str) -> (r: Vec<char>)
    ensures
        r@ == s@,
{
    let n = s.unicode_len();
    let mut r: Vec<char> = Vec::new();
    let mut i: usize = 0;
    while i < n
        invariant
            n == s@.len(),
            i <= n,
            r@ == s@.take(i as int),
        decreases n - i,
    {
        r.push(s.get_char(i));
        assert(s@.take(i + 1) =~= s@.take(i as int).push(s@[i as int]));
        i = i + 1;
    }
    assert(s@.take(n as int) =~= s@);
    r
}

fn char_is_digit(c: char) -> (r: bool)
    ensures
        r == is_digit(c),
{
    '0' <= c && c <= '9'
}

fn char_is_alpha(c: char) -> (r: bool)
    ensures
        r == is_alpha(c),
{
    ('a' <= c && c <= 'z') || ('A' <= c && c <= 'Z')
}

fn char_in_class(c: char, digits: bool) -> (r: bool)
    ensures
        r == in_class(c, digits),
{
    if digits {
        char_is_digit(c)
    } else {
        char_is_alpha(c)
    }
}

proof fn lemma_run_len_exact(s: Seq<char>, digits: bool, k: int)
    requires
        0 <= k <= s.len(),
        forall|i: int| 0 <= i < k ==> in_class(#[trigger] s[i], digits),
        k == s.len() || !in_class(s[k], digits),
    ensures
        run_len(s, digits) == k,
    decreases k,
{
    if k > 0 {
        assert(in_class(s[0], digits));
        let t = s.drop_first();
        assert forall|i: int| 0 <= i < k - 1 implies in_class(#[trigger] t[i], digits) by {
            assert(t[i] == s[i + 1]);
        }
        lemma_run_len_exact(t, digits, k - 1);
    }
}

/// Splits `v` into its segments.
fn segments_of(v: &Vec<char>) -> (r: Vec<Vec<char>>)
    ensures
        r@.map_values(|x: Vec<char>| x@) == segments(v@),
{
    let n = v.len();
    let mut out: Vec<Vec<char>> = Vec::new();
    let mut i: usize = 0;
    proof {
        assert(v@.skip(0) =~= v@);
        assert(out@.map_values(|x: Vec<char>| x@) + segments(v@) =~= segments(v@));
    }
    while i < n
        invariant
            n == v@.len(),
            i <= n,
            segments(v@) == out@.map_values(|x: Vec<char>| x@) + segments(v@.skip(i as int)),
        decreases n - i,
    {
        let c = v[i];
        let s = Ghost(v@.skip(i as int));
        assert(s@[0] == c);
        if char_is_digit(c) || char_is_alpha(c) {
            let digits = char_is_digit(c);
            let mut seg: Vec<char> = Vec::new();
            let mut j: usize = i;
            while j < n && char_in_class(v[j], digits)
                invariant
                    n == v@.len(),
                    i <= j <= n,
                    seg@ == v@.subrange(i as int, j as int),
                    forall|k: int| i <= k < j ==> in_class(#[trigger] v@[k], digits),
                decreases n - j,
            {
                seg.push(v[j]);
                assert(v@.subrange(i as int, j + 1) =~= v@.subrange(i as int, j as int).push(v@[j as int]));
                j = j + 1;
            }
            proof {
                assert forall|k: int| 0 <= k < j - i implies in_class(#[trigger] s@[k], digits) by {
                    assert(s@[k] == v@[i + k]);
                }
                if j < n {
                    assert(s@[j - i] == v@[j as int]);
                }
                lemma_run_len_exact(s@, digits, j - i);
                assert(s@.take(j - i) =~= seg@);
                assert(s@.skip(j - i) =~= v@.skip(j as int));
                let old_out = out@.map_values(|x: Vec<char>| x@);
                assert(out@.push(seg).map_values(|x: Vec<char>| x@) =~= old_out.push(seg@));
                assert(old_out + segments(s@) =~= old_out.push(seg@) + segments(v@.skip(j as int)));
            }
            out.push(seg);
            i = j;
        } else {
            proof {
                assert(s@.drop_first() =~= v@.skip(i + 1));
            }
            i = i + 1;
        }
    }
    proof {
        assert(v@.skip(n as int) =~= Seq::<char>::empty());
        assert(out@.map_values(|x: Vec<char>| x@) + Seq::<Seq<char>>::empty() =~= out@.map_values(|x: Vec<char>| x@));
    }
    out
}

/// Ordinal comparison of `a` from `i` on with `b` from `j` on.
fn lex_cmp_from(a: &Vec<char>, i: usize, b: &Vec<char>, j: usize) -> (r: i8)
    requires
        i <= a@.len(),
        j <= b@.len(),
    ensures
        r as int == lex_cmp(a@.skip(i as int), b@.skip(j as int)),
{
    let mut p: usize = i;
    let mut q: usize = j;
    while p < a.len() && q < b.len()
        invariant
            i <= p <= a@.len(),
            j <= q <= b@.len(),
            p - i == q - j,
            lex_cmp(a@.skip(i as int), b@.skip(j as int)) == lex_cmp(a@.skip(p as int), b@.skip(q as int)),
        decreases a@.len() - p,
    {
        let x = a[p];
        let y = b[q];
        assert(a@.skip(p as int)[0] == x);
        assert(b@.skip(q as int)[0] == y);
        if x < y {
            return -1;
        } else if x > y {
            return 1;
        }
        assert(a@.skip(p as int).drop_first() =~= a@.skip(p + 1));
        assert(b@.skip(q as int).drop_first() =~= b@.skip(q + 1));
        p = p + 1;
        q = q + 1;
    }
    if p < a.len() {
        1
    } else if q < b.len() {
        -1
    } else {
        0
    }
}

/// The index of the first character of `v` that is not `0`.
fn skip_zeros(v: &Vec<char>) -> (k: usize)
    ensures
        k <= v@.len(),
        strip_zeros(v@) == v@.skip(k as int),
{
    let mut k: usize = 0;
    assert(v@.skip(0) =~= v@);
    while k < v.len() && v[k] == '0'
        invariant
            k <= v@.len(),
            strip_zeros(v@) == strip_zeros(v@.skip(k as int)),
        decreases v@.len() - k,
    {
        assert(v@.skip(k as int).drop_first() =~= v@.skip(k + 1));
        k = k + 1;
    }
    k
}

fn num_cmp_exec(a: &Vec<char>, b: &Vec<char>) -> (r: i8)
    ensures
        r as int == num_cmp(a@, b@),
{
    let i = skip_zeros(a);
    let j = skip_zeros(b);
    let x = a.len() - i;
    let y = b.len() - j;
    if x < y {
        -1
    } else if x > y {
        1
    } else {
        lex_cmp_from(a, i, b, j)
    }
}

fn seg_cmp_exec(a: &Vec<char>, b: &Vec<char>) -> (r: i8)
    ensures
        r as int == seg_cmp(a@, b@),
{
    let an = a.len() > 0 && char_is_digit(a[0]);
    let bn = b.len() > 0 && char_is_digit(b[0]);
    if an && bn {
        num_cmp_exec(a, b)
    } else if an {
        1
    } else if bn {
        -1
    } else {
        proof {
            assert(a@.skip(0) =~= a@);
            assert(b@.skip(0) =~= b@);
        }
        lex_cmp_from(a, 0, b, 0)
    }
}

/// Compares two version (or release) strings segment by segment.
pub fn compare_versions(a: &str, b: &str) -> (r: i8)
    ensures
        r as int == version_cmp(a@, b@),
{
    let sa = segments_of(&chars_of(a));
    let sb = segments_of(&chars_of(b));
    let ghost va = sa@.map_values(|x: Vec<char>| x@);
    let ghost vb = sb@.map_values(|x: Vec<char>| x@);
    let mut i: usize = 0;
    assert(va.skip(0) =~= va);
    assert(vb.skip(0) =~= vb);
    while i < sa.len() && i < sb.len()
        invariant
            va == sa@.map_values(|x: Vec<char>| x@),
            vb == sb@.map_values(|x: Vec<char>| x@),
            segs_cmp(va, vb) == version_cmp(a@, b@),
            i <= sa@.len(),
            i <= sb@.len(),
            segs_cmp(va, vb) == segs_cmp(va.skip(i as int), vb.skip(i as int)),
        decreases sa@.len() - i,
    {
        let c = seg_cmp_exec(&sa[i], &sb[i]);
        assert(va.skip(i as int).len() > 0 && vb.skip(i as int).len() > 0);
        assert(va.skip(i as int)[0] == sa@[i as int]@);
        assert(vb.skip(i as int)[0] == sb@[i as int]@);
        if c != 0 {
            return c;
        }
        assert(va.skip(i as int).drop_first() =~= va.skip(i + 1));
        assert(vb.skip(i as int).drop_first() =~= vb.skip(i + 1));
        i = i + 1;
    }
    if i < sa.len() {
        assert(va.skip(i as int)[0] == sa@[i as int]@);
        if sa[i].len() > 0 && char_is_digit(sa[i][0]) {
            1
        } else {
            -1
        }
    } else if i < sb.len() {
        assert(vb.skip(i as int)[0] == sb@[i as int]@);
        if sb[i].len() > 0 && char_is_digit(sb[i][0]) {
            -1
        } else {
            1
        }
    } else {
        0
    }
}

impl EVR {
    /// Builds a tuple from its three parts.
    pub fn new(epoch: &str, version: &str, release: &str) -> (r: EVR)
        ensures
            r@ == (epoch@, version@, release@),
    {
        EVR { epoch: epoch.to_owned(), version: version.to_owned(), release: release.to_owned() }
    }

    /// Compares two tuples: -1 when `self` sorts first, 1 when `other` does,
    /// 0 when they denote the same revision.
    pub fn compare(&self, other: &EVR) -> (r: i8)
        ensures
            r as int == evr_cmp(self@, other@),
    {
        let a: &str = if self.epoch.as_str().is_empty() { "0" } else { self.epoch.as_str() };
        let b: &str = if other.epoch.as_str().is_empty() { "0" } else { other.epoch.as_str() };
        proof {
            reveal_strlit("0");
            assert("0"@ =~= seq!['0']);
        }
        let e = compare_versions(a, b);
        if e != 0 {
            return e;
        }
        let v = compare_versions(self.version.as_str(), other.version.as_str());
        if v != 0 {
            return v;
        }
        compare_versions(self.release.as_str(), other.release.as_str())
    }
}

impl Clone for EVR {
    fn clone(&self) -> (r: Self)
        ensures
            r@ == self@,
    {
        EVR { epoch: self.epoch.clone(), version: self.version.clone(), release: self.release.clone() }
    }
}

} // verus!
