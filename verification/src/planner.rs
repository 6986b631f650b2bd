use vstd::prelude::*;
use vstd::string::StringExecFns;

verus! {

/// The character for one decimal digit.
pub open spec fn digit_char(d: int) -> char {
    if d == 0 {
        '0'
    } else if d == 1 {
        '1'
    } else if d == 2 {
        '2'
    } else if d == 3 {
        '3'
    } else if d == 4 {
        '4'
    } else if d == 5 {
        '5'
    } else if d == 6 {
        '6'
    } else if d == 7 {
        '7'
    } else if d == 8 {
        '8'
    } else {
        '9'
    }
}

/// The decimal digits of `n`, most significant first.
pub open spec fn dec_digits(n: nat) -> Seq<char>
    decreases n,
{
    if n < 10 {
        seq![digit_char(n as int)]
    } else {
        dec_digits(n / 10).push(digit_char((n % 10) as int))
    }
}

/// The primary destination file name: the formatted stem, a dot, the
/// source file's extension.
pub open spec fn primary_name_spec(stem: Seq<char>, ext: Seq<char>) -> Seq<char> {
    stem + seq!['.'] + ext
}

/// The `attempt`-th candidate name: the primary name for attempt zero,
/// then the stem with `_1`, `_2`, ... before the extension.
pub open spec fn candidate_name_spec(stem: Seq<char>, ext: Seq<char>, attempt: nat) -> Seq<char> {
    if attempt == 0 {
        primary_name_spec(stem, ext)
    } else {
        stem + seq!['_'] + dec_digits(attempt) + seq!['.'] + ext
    }
}

/// A destination path: the destination directory, a separator, the file
/// name chosen for the item.
pub open spec fn joined_path_spec(dir: Seq<char>, name: Seq<char>) -> Seq<char> {
    dir + seq!['/'] + name
}

/// Appends the decimal digits of `n` to `s`.
fn push_decimal(s: &mut String, n: u64)
    ensures
        final(s)@ == old(s)@ + dec_digits(n as nat),
    decreases n,
{
    if n >= 10 {
        push_decimal(s, n / 10);
    }
    let d = n % 10;
    proof {
        reveal_strlit("0");
        reveal_strlit("1");
        reveal_strlit("2");
        reveal_strlit("3");
        reveal_strlit("4");
        reveal_strlit("5");
        reveal_strlit("6");
        reveal_strlit("7");
        reveal_strlit("8");
        reveal_strlit("9");
    }
    if d == 0 {
        s.append("0");
    } else if d == 1 {
        s.append("1");
    } else if d == 2 {
        s.append("2");
    } else if d == 3 {
        s.append("3");
    } else if d == 4 {
        s.append("4");
    } else if d == 5 {
        s.append("5");
    } else if d == 6 {
        s.append("6");
    } else if d == 7 {
        s.append("7");
    } else if d == 8 {
        s.append("8");
    } else {
        s.append("9");
    }
    proof {
        assert(s@ =~= old(s)@ + dec_digits(n as nat));
    }
}

/// Builds the `attempt`-th candidate file name for a stem and extension.
pub fn candidate_name(stem: &str, ext: &str, attempt: u64) -> (r: String)
    ensures
        r@ == candidate_name_spec(stem@, ext@, attempt as nat),
{
    proof {
        reveal_strlit(".");
        reveal_strlit("_");
    }
    let mut s = String::from_str(stem);
    if attempt == 0 {
        s.append(".");
        s.append(ext);
        proof {
            assert(s@ =~= candidate_name_spec(stem@, ext@, attempt as nat));
        }
    } else {
        s.append("_");
        push_decimal(&mut s, attempt);
        s.append(".");
        s.append(ext);
        proof {
            assert(s@ =~= candidate_name_spec(stem@, ext@, attempt as nat));
        }
    }
    s
}

/// Joins the destination directory and a chosen file name into a path.
pub fn join_path(dir: &str, name: &str) -> (r: String)
    ensures
        r@ == joined_path_spec(dir@, name@),
{
    proof {
        reveal_strlit("/");
    }
    let r = String::from_str(dir).concat("/").concat(name);
    proof {
        assert(r@ =~= joined_path_spec(dir@, name@));
    }
    r
}

proof fn lemma_dec_digits_len(n: nat)
    ensures
        dec_digits(n).len() >= 1,
    decreases n,
{
    if n >= 10 {
        lemma_dec_digits_len(n / 10);
    }
}

/// Distinct numbers have distinct digit strings.
proof fn lemma_dec_digits_injective(a: nat, b: nat)
    requires
        dec_digits(a) == dec_digits(b),
    ensures
        a == b,
    decreases a + b,
{
    lemma_dec_digits_len(a);
    lemma_dec_digits_len(b);
    if a < 10 && b < 10 {
        assert(dec_digits(a)[0] == digit_char(a as int));
        assert(dec_digits(b)[0] == digit_char(b as int));
    } else if a < 10 {
        lemma_dec_digits_len(b / 10);
        assert(dec_digits(b).len() >= 2);
        assert(dec_digits(a).len() == 1);
    } else if b < 10 {
        lemma_dec_digits_len(a / 10);
        assert(dec_digits(a).len() >= 2);
        assert(dec_digits(b).len() == 1);
    } else {
        let da = dec_digits(a);
        let db = dec_digits(b);
        assert(da.last() == digit_char((a % 10) as int));
        assert(db.last() == digit_char((b % 10) as int));
        assert(a % 10 == b % 10);
        assert(da.drop_last() =~= dec_digits(a / 10));
        assert(db.drop_last() =~= dec_digits(b / 10));
        lemma_dec_digits_injective(a / 10, b / 10);
    }
}

/// Collision resolution never reuses a name: two different attempts for
/// the same stem and extension always yield different file names, so a
/// suffixed name can never collide with the primary one, nor with an
/// earlier suffix.
pub proof fn lemma_candidate_names_distinct(stem: Seq<char>, ext: Seq<char>, a: nat, b: nat)
    requires
        a != b,
    ensures
        candidate_name_spec(stem, ext, a) != candidate_name_spec(stem, ext, b),
{
    let ca = candidate_name_spec(stem, ext, a);
    let cb = candidate_name_spec(stem, ext, b);
    if a != 0 {
        lemma_dec_digits_len(a);
    }
    if b != 0 {
        lemma_dec_digits_len(b);
    }
    if ca == cb {
        if a == 0 || b == 0 {
            assert(ca[stem.len() as int] == cb[stem.len() as int]);
            assert(false);
        } else {
            let da = dec_digits(a);
            let db = dec_digits(b);
            assert(ca.len() == stem.len() + 1 + da.len() + 1 + ext.len());
            assert(cb.len() == stem.len() + 1 + db.len() + 1 + ext.len());
            assert(da.len() == db.len());
            assert forall|i: int| 0 <= i < da.len() implies da[i] == db[i] by {
                assert(ca[stem.len() + 1 + i] == da[i]);
                assert(cb[stem.len() + 1 + i] == db[i]);
            }
            assert(da =~= db);
            lemma_dec_digits_injective(a, b);
            assert(false);
        }
    }
}

} // verus!
