//! Random passwords drawn from up to four character classes, with at least one
//! character of every class asked for.
use vstd::prelude::*;

use rand::seq::SliceRandom;

verus! {

broadcast use vstd::seq_lib::group_to_multiset_ensures;

/// Why no password was produced.
#[derive(Debug, Clone, Copy, PartialEq, Eq, Structural)]
pub enum PasswordError {
    /// The length is smaller than the number of classes that each need a character.
    TooShort,
    /// Every class was excluded, yet characters were asked for.
    EmptyAlphabet,
}

pub open spec fn is_upper(c: char) -> bool {
    'A' <= c <= 'Z'
}

pub open spec fn is_lower(c: char) -> bool {
    'a' <= c <= 'z'
}

pub open spec fn is_digit(c: char) -> bool {
    '0' <= c <= '9'
}

pub open spec fn is_symbol(c: char) -> bool {
    ||| c == '!'
    ||| c == '@'
    ||| c == '#'
    ||| c == '$'
    ||| c == '%'
    ||| c == '^'
    ||| c == '&'
    ||| c == '*'
    ||| c == '~'
    ||| c == ','
    ||| c == '.'
    ||| c == ';'
}

/// Class `k`: 0 upper case, 1 lower case, 2 digits, 3 symbols.
pub open spec fn in_class(c: char, k: int) -> bool {
    if k == 0 {
        is_upper(c)
    } else if k == 1 {
        is_lower(c)
    } else if k == 2 {
        is_digit(c)
    } else {
        k == 3 && is_symbol(c)
    }
}

/// Whether class `k` is asked for.
pub open spec fn included(k: int, no_upper: bool, no_lower: bool, no_number: bool, no_symbol: bool) -> bool {
    ||| k == 0 && !no_upper
    ||| k == 1 && !no_lower
    ||| k == 2 && !no_number
    ||| k == 3 && !no_symbol
}

/// How many of the classes below `k` are asked for.
pub open spec fn included_below(k: int, no_upper: bool, no_lower: bool, no_number: bool, no_symbol: bool) -> nat
    decreases k,
{
    if k <= 0 {
        0
    } else {
        included_below(k - 1, no_upper, no_lower, no_number, no_symbol) + if included(
            k - 1,
            no_upper,
            no_lower,
            no_number,
            no_symbol,
        ) {
            1nat
        } else {
            0nat
        }
    }
}

/// How many classes are asked for.
pub open spec fn class_count(no_upper: bool, no_lower: bool, no_number: bool, no_symbol: bool) -> nat {
    included_below(4, no_upper, no_lower, no_number, no_symbol)
}

/// A character of one of the classes asked for.
pub open spec fn in_alphabet(c: char, no_upper: bool, no_lower: bool, no_number: bool, no_symbol: bool) -> bool {
    ||| !no_upper && is_upper(c)
    ||| !no_lower && is_lower(c)
    ||| !no_number && is_digit(c)
    ||| !no_symbol && is_symbol(c)
}

/// ASCII bytes, each standing for a character of the classes asked for.
pub open spec fn alphabet_bytes(b: Seq<u8>, no_upper: bool, no_lower: bool, no_number: bool, no_symbol: bool) -> bool {
    forall|i: int| 0 <= i < b.len() ==> #[trigger] b[i] < 128 && in_alphabet(b[i] as char, no_upper, no_lower, no_number, no_symbol)
}

/// Some character of `s` is of class `k`.
pub open spec fn has_class(s: Seq<char>, k: int) -> bool {
    exists|i: int| 0 <= i < s.len() && #[trigger] in_class(s[i], k)
}

/// A password of the given length over the classes asked for, holding each of them.
pub open spec fn is_password(
    s: Seq<char>,
    length: nat,
    no_upper: bool,
    no_lower: bool,
    no_number: bool,
    no_symbol: bool,
) -> bool {
    &&& s.len() == length
    &&& forall|i: int| 0 <= i < s.len() ==> in_alphabet(#[trigger] s[i], no_upper, no_lower, no_number, no_symbol)
    &&& forall|k: int| 0 <= k < 4 && #[trigger] included(k, no_upper, no_lower, no_number, no_symbol) ==> has_class(s, k)
}

/// The characters that ASCII bytes stand for.
pub open spec fn ascii_chars(b: Seq<u8>) -> Seq<char> {
    Seq::new(b.len(), |i: int| b[i] as char)
}

/// The inputs on which no password can be made.
pub open spec fn genpass_fails(length: nat, no_upper: bool, no_lower: bool, no_number: bool, no_symbol: bool) -> bool {
    ||| length < class_count(no_upper, no_lower, no_number, no_symbol)
    ||| class_count(no_upper, no_lower, no_number, no_symbol) == 0 && length > 0
}

/// Relies on `SliceRandom::choose` of `rand`, with `rand::thread_rng()`: `None` only for
/// an empty slice, otherwise one of its items.
#[verifier::external_body]
fn choose_from(pool: &[u8]) -> (r: Option<u8>)
    ensures
        r is None <==> pool@.len() == 0,
        r matches Some(c) ==> pool@.contains(c),
{
    pool.choose(&mut rand::thread_rng()).copied()
}

/// Relies on `SliceRandom::shuffle` of `rand`, with `rand::thread_rng()`: it only swaps
/// items, so the result is a permutation of the input.
#[verifier::external_body]
fn shuffle_bytes(v: &mut Vec<u8>)
    ensures
        final(v)@.to_multiset() == old(v)@.to_multiset(),
{
    v.shuffle(&mut rand::thread_rng())
}

/// Relies on `String::from_utf8`: bytes below 128 are valid UTF-8 and stand for the
/// ASCII characters with the same codes.
#[verifier::external_body]
fn ascii_string(bytes: Vec<u8>) -> (r: String)
    requires
        forall|i: int| 0 <= i < bytes@.len() ==> bytes@[i] < 128,
    ensures
        r@ == ascii_chars(bytes@),
{
    match String::from_utf8(bytes) {
        Ok(s) => s,
        Err(_) => String::new(),
    }
}

/// The bytes of class `k`.
fn class_pool(k: u8) -> (r: Vec<u8>)
    requires
        k < 4,
    ensures
        r@.len() > 0,
        forall|i: int| 0 <= i < r@.len() ==> in_class(#[trigger] r@[i] as char, k as int),
        forall|i: int| 0 <= i < r@.len() ==> #[trigger] r@[i] < 128,
{
    if k == 3 {
        // ! @ # $ % ^ & * ~ , . ;
        let r: Vec<u8> = vec![33, 64, 35, 36, 37, 94, 38, 42, 126, 44, 46, 59];
        assert forall|i: int| 0 <= i < r@.len() implies in_class(#[trigger] r@[i] as char, 3) by {
            assert(r@[i] as char == '!' || r@[i] as char == '@' || r@[i] as char == '#' || r@[i]
                as char == '$' || r@[i] as char == '%' || r@[i] as char == '^' || r@[i] as char
                == '&' || r@[i] as char == '*' || r@[i] as char == '~' || r@[i] as char == ','
                || r@[i] as char == '.' || r@[i] as char == ';');
        }
        return r;
    }
    let (first, count): (u8, u8) = if k == 0 {
        (65, 26)
    } else if k == 1 {
        (97, 26)
    } else {
        (48, 10)
    };
    let mut r: Vec<u8> = Vec::new();
    let mut n: u8 = 0;
    while n < count
        invariant
            k < 3,
            n <= count,
            k == 0 ==> first == 65 && count == 26,
            k == 1 ==> first == 97 && count == 26,
            k == 2 ==> first == 48 && count == 10,
            r@.len() == n,
            forall|i: int| 0 <= i < r@.len() ==> r@[i] == first + i,
        decreases count - n,
    {
        r.push(first + n);
        n = n + 1;
    }
    assert forall|i: int| 0 <= i < r@.len() implies in_class(#[trigger] r@[i] as char, k as int) by {
        assert(r@[i] == first + i);
    }
    r
}

/// A permutation keeps a password a password.
proof fn lemma_permuted_password(
    a: Seq<u8>,
    b: Seq<u8>,
    length: nat,
    no_upper: bool,
    no_lower: bool,
    no_number: bool,
    no_symbol: bool,
)
    requires
        a.to_multiset() == b.to_multiset(),
        is_password(ascii_chars(a), length, no_upper, no_lower, no_number, no_symbol),
    ensures
        is_password(ascii_chars(b), length, no_upper, no_lower, no_number, no_symbol),
{
    assert(a.len() == a.to_multiset().len());
    assert(b.len() == b.to_multiset().len());
    assert forall|i: int| 0 <= i < ascii_chars(b).len() implies in_alphabet(
        #[trigger] ascii_chars(b)[i],
        no_upper,
        no_lower,
        no_number,
        no_symbol,
    ) by {
        assert(b.contains(b[i]));
        assert(a.to_multiset().count(b[i]) > 0);
        assert(a.contains(b[i]));
        let j = choose|j: int| 0 <= j < a.len() && a[j] == b[i];
        assert(ascii_chars(a)[j] == ascii_chars(b)[i]);
    }
    assert forall|k: int| 0 <= k < 4 && #[trigger] included(k, no_upper, no_lower, no_number, no_symbol) implies has_class(
        ascii_chars(b),
        k,
    ) by {
        assert(has_class(ascii_chars(a), k));
        let j = choose|j: int| 0 <= j < ascii_chars(a).len() && #[trigger] in_class(ascii_chars(a)[j], k);
        assert(a.contains(a[j]));
        assert(b.to_multiset().count(a[j]) > 0);
        assert(b.contains(a[j]));
        let i = choose|i: int| 0 <= i < b.len() && b[i] == a[j];
        assert(in_class(ascii_chars(b)[i], k));
    }
}

/// Adds class `k` to the pool and, unless it is excluded, one of its characters to
/// the password.
fn add_class(
    k: u8,
    pool: &mut Vec<u8>,
    password: &mut Vec<u8>,
    no_upper: bool,
    no_lower: bool,
    no_number: bool,
    no_symbol: bool,
)
    requires
        k < 4,
        alphabet_bytes(old(pool)@, no_upper, no_lower, no_number, no_symbol),
        alphabet_bytes(old(password)@, no_upper, no_lower, no_number, no_symbol),
        old(password)@.len() == included_below(k as int, no_upper, no_lower, no_number, no_symbol),
        old(pool)@.len() == 0 <==> included_below(k as int, no_upper, no_lower, no_number, no_symbol) == 0,
        forall|j: int| 0 <= j < k && #[trigger] included(j, no_upper, no_lower, no_number, no_symbol) ==> has_class(ascii_chars(old(password)@), j),
    ensures
        alphabet_bytes(final(pool)@, no_upper, no_lower, no_number, no_symbol),
        alphabet_bytes(final(password)@, no_upper, no_lower, no_number, no_symbol),
        final(password)@.len() == included_below(k + 1, no_upper, no_lower, no_number, no_symbol),
        final(pool)@.len() == 0 <==> included_below(k + 1, no_upper, no_lower, no_number, no_symbol) == 0,
        forall|j: int| 0 <= j <= k && #[trigger] included(j, no_upper, no_lower, no_number, no_symbol) ==> has_class(ascii_chars(final(password)@), j),
{
    let excluded = if k == 0 {
        no_upper
    } else if k == 1 {
        no_lower
    } else if k == 2 {
        no_number
    } else {
        no_symbol
    };
    assert(excluded == !included(k as int, no_upper, no_lower, no_number, no_symbol));
    if excluded {
        return;
    }
    let mut class = class_pool(k);
    let ghost old_password = password@;
    match choose_from(class.as_slice()) {
        Some(c) => {
            password.push(c);
            proof {
                let j = choose|j: int| 0 <= j < class@.len() && class@[j] == c;
                assert(in_class(class@[j] as char, k as int));
                assert(ascii_chars(password@)[password@.len() - 1] == c as char);
                assert(in_class(ascii_chars(password@)[password@.len() - 1], k as int));
                assert forall|j: int| 0 <= j <= k && #[trigger] included(j, no_upper, no_lower, no_number, no_symbol) implies has_class(ascii_chars(password@), j) by {
                    if j < k {
                        assert(has_class(ascii_chars(old_password), j));
                        let i = choose|i: int| 0 <= i < old_password.len() && #[trigger] in_class(ascii_chars(old_password)[i], j);
                        assert(ascii_chars(password@)[i] == ascii_chars(old_password)[i]);
                    }
                }
            }
        },
        None => {},
    }
    let ghost old_pool = pool@;
    let ghost added = class@;
    pool.append(&mut class);
    assert(pool@ =~= old_pool + added);
}

/// Draws characters from the pool until the password is `length` long.
fn fill_password(
    length: u8,
    pool: &Vec<u8>,
    password: &mut Vec<u8>,
    no_upper: bool,
    no_lower: bool,
    no_number: bool,
    no_symbol: bool,
)
    requires
        old(password)@.len() <= length,
        pool@.len() > 0,
        alphabet_bytes(pool@, no_upper, no_lower, no_number, no_symbol),
        alphabet_bytes(old(password)@, no_upper, no_lower, no_number, no_symbol),
        forall|j: int| 0 <= j < 4 && #[trigger] included(j, no_upper, no_lower, no_number, no_symbol) ==> has_class(ascii_chars(old(password)@), j),
    ensures
        final(password)@.len() == length,
        alphabet_bytes(final(password)@, no_upper, no_lower, no_number, no_symbol),
        forall|j: int| 0 <= j < 4 && #[trigger] included(j, no_upper, no_lower, no_number, no_symbol) ==> has_class(ascii_chars(final(password)@), j),
{
    let target = length as usize;
    while password.len() < target
        invariant
            password@.len() <= target,
            target == length,
            pool@.len() > 0,
            alphabet_bytes(pool@, no_upper, no_lower, no_number, no_symbol),
            alphabet_bytes(password@, no_upper, no_lower, no_number, no_symbol),
            forall|j: int| 0 <= j < 4 && #[trigger] included(j, no_upper, no_lower, no_number, no_symbol) ==> has_class(ascii_chars(password@), j),
        decreases target - password@.len(),
    {
        let pick = choose_from(pool.as_slice());
        let c = match pick {
            Some(c) => c,
            None => {
                return;
            },
        };
        let ghost old_password = password@;
        password.push(c);
        proof {
            let j = choose|j: int| 0 <= j < pool@.len() && pool@[j] == c;
            assert(pool@[j] < 128);
            assert forall|j: int| 0 <= j < 4 && #[trigger] included(j, no_upper, no_lower, no_number, no_symbol) implies has_class(ascii_chars(password@), j) by {
                assert(has_class(ascii_chars(old_password), j));
                let i = choose|i: int| 0 <= i < old_password.len() && #[trigger] in_class(ascii_chars(old_password)[i], j);
                assert(ascii_chars(password@)[i] == ascii_chars(old_password)[i]);
            }
        }
    }
}

/// The bytes of a random password: one character of each class asked for, the rest
/// drawn from all of them, in random order.
pub fn password_bytes(length: u8, no_upper: bool, no_lower: bool, no_number: bool, no_symbol: bool) -> (r: Result<
    Vec<u8>,
    PasswordError,
>)
    ensures
        r is Err <==> genpass_fails(length as nat, no_upper, no_lower, no_number, no_symbol),
        r matches Err(e) ==> (e == PasswordError::TooShort <==> length < class_count(
            no_upper,
            no_lower,
            no_number,
            no_symbol,
        )),
        r matches Ok(b) ==> is_password(ascii_chars(b@), length as nat, no_upper, no_lower, no_number, no_symbol),
        r matches Ok(b) ==> forall|i: int| 0 <= i < b@.len() ==> #[trigger] b@[i] < 128,
{
    let mut pool: Vec<u8> = Vec::new();
    let mut password: Vec<u8> = Vec::new();
    let mut k: u8 = 0;
    while k < 4
        invariant
            k <= 4,
            alphabet_bytes(pool@, no_upper, no_lower, no_number, no_symbol),
            alphabet_bytes(password@, no_upper, no_lower, no_number, no_symbol),
            password@.len() == included_below(k as int, no_upper, no_lower, no_number, no_symbol),
            pool@.len() == 0 <==> included_below(k as int, no_upper, no_lower, no_number, no_symbol) == 0,
            forall|j: int| 0 <= j < k && #[trigger] included(j, no_upper, no_lower, no_number, no_symbol) ==> has_class(ascii_chars(password@), j),
        decreases 4 - k,
    {
        add_class(k, &mut pool, &mut password, no_upper, no_lower, no_number, no_symbol);
        k = k + 1;
    }
    if (length as usize) < password.len() {
        return Err(PasswordError::TooShort);
    }
    if pool.len() == 0 {
        if length > 0 {
            return Err(PasswordError::EmptyAlphabet);
        }
    } else {
        fill_password(length, &pool, &mut password, no_upper, no_lower, no_number, no_symbol);
    }
    proof {
        assert forall|i: int| 0 <= i < ascii_chars(password@).len() implies in_alphabet(
            #[trigger] ascii_chars(password@)[i],
            no_upper,
            no_lower,
            no_number,
            no_symbol,
        ) by {
            assert(password@[i] < 128);
        }
    }
    let ghost before = password@;
    shuffle_bytes(&mut password);
    proof {
        lemma_permuted_password(before, password@, length as nat, no_upper, no_lower, no_number, no_symbol);
        assert forall|i: int| 0 <= i < password@.len() implies #[trigger] password@[i] < 128 by {
            assert(password@.contains(password@[i]));
            assert(before.to_multiset().count(password@[i]) > 0);
            assert(before.contains(password@[i]));
        }
    }
    Ok(password)
}

/// A random password of `length` characters. Each class that is not excluded
/// (upper case, lower case, digits, symbols) gives at least one character, and
/// every character comes from those classes. It fails when `length` is below the
/// number of classes asked for, or when characters are asked for from no class.
pub fn process_genpass(length: u8, no_upper: bool, no_lower: bool, no_number: bool, no_symbol: bool) -> (r: Result<
    String,
    PasswordError,
>)
    ensures
        r is Err <==> genpass_fails(length as nat, no_upper, no_lower, no_number, no_symbol),
        r matches Err(e) ==> (e == PasswordError::TooShort <==> length < class_count(
            no_upper,
            no_lower,
            no_number,
            no_symbol,
        )),
        r matches Ok(p) ==> is_password(p@, length as nat, no_upper, no_lower, no_number, no_symbol),
{
    match password_bytes(length, no_upper, no_lower, no_number, no_symbol) {
        Ok(b) => Ok(ascii_string(b)),
        Err(e) => Err(e),
    }
}

} // verus!
