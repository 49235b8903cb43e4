use vstd::prelude::*;
use vstd::string::StrSliceExecFns;
use vstd::string::StringExecFns;

verus! {

/// `a` comes strictly before `b` in the order of their characters' code
/// points, a proper prefix first.  This is the order of `str`'s `Ord`.
pub open spec fn text_lt(a: Seq<char>, b: Seq<char>) -> bool {
    exists|i: int|
        0 <= i <= a.len() && i <= b.len() && #[trigger] a.take(i) == b.take(i) && (
        (i == a.len() && i < b.len()) || (i < a.len() && i < b.len() && a[i] < b[i]))
}

/// No text comes before itself.
pub proof fn lemma_text_lt_irreflexive(a: Seq<char>)
    ensures
        !text_lt(a, a),
{
}

/// The order of texts is transitive.
pub proof fn lemma_text_lt_transitive(a: Seq<char>, b: Seq<char>, c: Seq<char>)
    requires
        text_lt(a, b),
        text_lt(b, c),
    ensures
        text_lt(a, c),
{
    let i = choose|i: int|
        0 <= i <= a.len() && i <= b.len() && #[trigger] a.take(i) == b.take(i) && (
        (i == a.len() && i < b.len()) || (i < a.len() && i < b.len() && a[i] < b[i]));
    let k = choose|k: int|
        0 <= k <= b.len() && k <= c.len() && #[trigger] b.take(k) == c.take(k) && (
        (k == b.len() && k < c.len()) || (k < b.len() && k < c.len() && b[k] < c[k]));
    let m = if i < k { i } else { k };
    assert(a.take(m) =~= c.take(m)) by {
        assert forall|j: int| 0 <= j < m implies a[j] == c[j] by {
            assert(a.take(i)[j] == b.take(i)[j]);
            assert(b.take(k)[j] == c.take(k)[j]);
        }
    }
    if i < k {
        assert(b.take(k)[i] == c.take(k)[i]);
    } else if k < i {
        assert(a.take(i)[k] == b.take(i)[k]);
    }
}

/// Two texts are equal or one comes before the other.
pub proof fn lemma_text_lt_total(a: Seq<char>, b: Seq<char>)
    ensures
        a == b || text_lt(a, b) || text_lt(b, a),
    decreases a.len(),
{
    if a.len() == 0 || b.len() == 0 || a[0] != b[0] {
        assert(a.take(0) =~= b.take(0));
        if a.len() == 0 && b.len() == 0 {
            assert(a =~= b);
        } else if a.len() == 0 {
            assert(text_lt(a, b));
        } else if b.len() == 0 {
            assert(text_lt(b, a));
        } else if a[0] < b[0] {
            assert(text_lt(a, b));
        } else {
            assert(text_lt(b, a));
        }
    } else {
        let x = a.skip(1);
        let y = b.skip(1);
        lemma_text_lt_total(x, y);
        if x == y {
            assert(a =~= b) by {
                assert forall|m: int| 0 <= m < a.len() implies a[m] == b[m] by {
                    if m > 0 {
                        assert(a[m] == x[m - 1]);
                        assert(b[m] == y[m - 1]);
                    }
                }
            }
        } else if text_lt(x, y) {
            lemma_text_lt_step(a, b);
        } else {
            lemma_text_lt_step(b, a);
        }
    }
}

proof fn lemma_text_lt_step(a: Seq<char>, b: Seq<char>)
    requires
        a.len() > 0,
        b.len() > 0,
        a[0] == b[0],
        text_lt(a.skip(1), b.skip(1)),
    ensures
        text_lt(a, b),
{
    let x = a.skip(1);
    let y = b.skip(1);
    let i = choose|i: int|
        0 <= i <= x.len() && i <= y.len() && #[trigger] x.take(i) == y.take(i) && (
        (i == x.len() && i < y.len()) || (i < x.len() && i < y.len() && x[i] < y[i]));
    assert(a.take(i + 1) =~= b.take(i + 1)) by {
        assert forall|m: int| 0 <= m < i + 1 implies a[m] == b[m] by {
            if m > 0 {
                assert(x.take(i)[m - 1] == y.take(i)[m - 1]);
            }
        }
    }
    assert(a[i + 1] == x[i] || i + 1 == a.len());
}

/// Whether two texts hold the same characters.
pub fn same_text(a: &str, b: &str) -> (r: bool)
    ensures
        r == (a@ == b@),
{
    let n = a.unicode_len();
    if n != b.unicode_len() {
        return false;
    }
    let mut i: usize = 0;
    while i < n
        invariant
            n == a@.len(),
            n == b@.len(),
            0 <= i <= n,
            forall|j: int| 0 <= j < i ==> a@[j] == b@[j],
        decreases n - i,
    {
        if a.get_char(i) != b.get_char(i) {
            return false;
        }
        i = i + 1;
    }
    assert(a@ =~= b@);
    true
}

/// Compares two texts in the order of `text_lt`.
pub fn compare_text(a: &str, b: &str) -> (r: core::cmp::Ordering)
    ensures
        (r == core::cmp::Ordering::Less) == text_lt(a@, b@),
        (r == core::cmp::Ordering::Equal) == (a@ == b@),
        (r == core::cmp::Ordering::Greater) == text_lt(b@, a@),
{
    let n = a.unicode_len();
    let m = b.unicode_len();
    let mut i: usize = 0;
    while i < n && i < m
        invariant
            n == a@.len(),
            m == b@.len(),
            0 <= i <= n,
            i <= m,
            a@.take(i as int) == b@.take(i as int),
        decreases n - i,
    {
        let x = a.get_char(i);
        let y = b.get_char(i);
        if x != y {
            proof {
                lemma_text_lt_irreflexive(a@);
                assert(b@.take(i as int) == a@.take(i as int));
                if x < y {
                    assert(text_lt(a@, b@));
                    if text_lt(b@, a@) {
                        lemma_text_lt_transitive(a@, b@, a@);
                    }
                } else {
                    assert(text_lt(b@, a@));
                    if text_lt(a@, b@) {
                        lemma_text_lt_transitive(a@, b@, a@);
                    }
                }
            }
            if x < y {
                return core::cmp::Ordering::Less;
            } else {
                return core::cmp::Ordering::Greater;
            }
        }
        proof {
            assert(a@.take(i + 1) =~= a@.take(i as int).push(x));
            assert(b@.take(i + 1) =~= b@.take(i as int).push(y));
        }
        i = i + 1;
    }
    proof {
        lemma_text_lt_irreflexive(a@);
        assert(b@.take(i as int) == a@.take(i as int));
    }
    if n < m {
        proof {
            assert(text_lt(a@, b@));
            if text_lt(b@, a@) {
                lemma_text_lt_transitive(a@, b@, a@);
            }
        }
        core::cmp::Ordering::Less
    } else if m < n {
        proof {
            assert(text_lt(b@, a@));
            if text_lt(a@, b@) {
                lemma_text_lt_transitive(a@, b@, a@);
            }
        }
        core::cmp::Ordering::Greater
    } else {
        proof {
            assert(a@ =~= a@.take(i as int));
            assert(b@ =~= b@.take(i as int));
        }
        core::cmp::Ordering::Equal
    }
}

/// The decimal digit that stands for `d`, for `d` below ten.
pub open spec fn digit_char(d: nat) -> char {
    ((d + 48) as u8) as char
}

/// The decimal numeral of `n`, without leading zeros.
pub open spec fn decimal(n: nat) -> Seq<char>
    decreases n,
{
    if n < 10 {
        seq![digit_char(n)]
    } else {
        decimal(n / 10).push(digit_char(n % 10))
    }
}

fn digit_text(d: u16) -> (r: &'static str)
    requires
        d < 10,
    ensures
        r@ == seq![digit_char(d as nat)],
{
    proof {
        reveal_strlit("0");
        reveal_strlit("1");
        reveal_strlit("2");
        reveal_strlit("3");
        reveal_strlit("4");
        reveal_strlit("5");
        reveal_strlit("6");
        reveal_strlit("7");
        reveal_strlit("8");
        reveal_strlit("9");
    }
    let r = match d {
        0 => "0",
        1 => "1",
        2 => "2",
        3 => "3",
        4 => "4",
        5 => "5",
        6 => "6",
        7 => "7",
        8 => "8",
        _ => "9",
    };
    assert(r@ =~= seq![digit_char(d as nat)]);
    r
}

/// Renders `n` in decimal.
pub fn decimal_text(n: u16) -> (r: String)
    ensures
        r@ == decimal(n as nat),
    decreases n,
{
    if n < 10 {
        digit_text(n).to_owned()
    } else {
        let mut r = decimal_text(n / 10);
        r.append(digit_text(n % 10));
        assert(r@ =~= decimal(n as nat));
        r
    }
}

} // verus!
