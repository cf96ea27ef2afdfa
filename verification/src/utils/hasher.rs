//! Password hashes in PHC string format.

use vstd::prelude::*;
use crate::text::{decimal_digits, str_chars};

verus! {

/// Hash scheme version used when the configuration names none.
pub fn default_hasher_scheme_version() -> (v: usize)
    ensures
        v == 1,
{
    1
}

/// Whether a stored hash is a PHC string libreauth can read back
/// (`HashBuilder::from_phc` succeeds).
pub uninterp spec fn phc_readable(stored: Seq<char>) -> bool;

/// Whether a password matches a readable stored hash
/// (`Hasher::is_valid` on the hasher read from it).
pub uninterp spec fn phc_matches(stored: Seq<char>, password: Seq<char>) -> bool;

// ---- Argon2 cost parameters of a stored hash ----

/// First position at or after `i` that holds `c`, or the length when there
/// is none.
pub open spec fn next_pos(s: Seq<char>, c: char, i: int) -> int
    decreases s.len() - i,
{
    if i < 0 || i >= s.len() {
        s.len() as int
    } else if s[i] == c {
        i
    } else {
        next_pos(s, c, i + 1)
    }
}

/// `next_pos` lies between its start and the length, on a `c` when below it.
pub proof fn lemma_next_pos_range(s: Seq<char>, c: char, i: int)
    requires
        0 <= i <= s.len(),
    ensures
        i <= next_pos(s, c, i) <= s.len(),
        next_pos(s, c, i) < s.len() ==> s[next_pos(s, c, i)] == c,
    decreases s.len() - i,
{
    if i < s.len() && s[i] != c {
        lemma_next_pos_range(s, c, i + 1);
    }
}

/// The value of the last `key=value` entry of the comma-separated list `p`,
/// among the entries that start at `i` or later (later entries replace
/// earlier ones, as when libreauth collects the parameters into a map).
pub open spec fn last_value(p: Seq<char>, key: Seq<char>, i: int) -> Option<Seq<char>>
    decreases p.len() - i,
{
    if i < 0 || i > p.len() {
        None
    } else {
        let e = next_pos(p, ',', i);
        proof {
            lemma_next_pos_range(p, ',', i);
        }
        let later = if e < p.len() { last_value(p, key, e + 1) } else { None };
        if later is Some {
            later
        } else {
            let entry = p.subrange(i, e);
            if entry_named(entry, key) {
                Some(entry.subrange(key.len() + 1int, entry.len() as int))
            } else {
                None
            }
        }
    }
}

/// Whether every character is an ASCII digit.
pub open spec fn all_digits(d: Seq<char>) -> bool {
    forall|k: int| 0 <= k < d.len() ==> '0' <= #[trigger] d[k] <= '9'
}

/// The number an ASCII digit string denotes.
pub open spec fn digits_value(d: Seq<char>) -> nat
    decreases d.len(),
{
    if d.len() == 0 {
        0
    } else {
        digits_value(d.drop_last()) * 10 + ((d.last() as int - 48) as nat)
    }
}

/// What `str::parse::<u32>` gives for a text: an optional `+` followed by
/// at least one digit, of value at most `u32::MAX`.
pub open spec fn u32_text_value(v: Seq<char>) -> Option<nat> {
    let d = if v.len() > 0 && v[0] == '+' { v.drop_first() } else { v };
    if d.len() > 0 && all_digits(d) && digits_value(d) <= u32::MAX {
        Some(digits_value(d))
    } else {
        None
    }
}

/// Two to the power `n`.
pub open spec fn two_to(n: nat) -> nat
    decreases n,
{
    if n == 0 {
        1
    } else {
        2 * two_to((n - 1) as nat)
    }
}

/// The parameter section of a stored Argon2 hash: what follows `$argon2$`
/// up to the next `$`.
pub open spec fn argon2_params(s: Seq<char>) -> Seq<char> {
    s.subrange(8, next_pos(s, '$', 8))
}

/// Whether `entry` is a `key=value` entry.
pub open spec fn entry_named(entry: Seq<char>, key: Seq<char>) -> bool {
    entry.len() > key.len() && entry.subrange(0, key.len() as int) == key && entry[key.len() as int] == '='
}

/// Whether an entry names a parameter libreauth knows for Argon2: the
/// hashing costs it hands to the Argon2 hasher, or one of the options it
/// reads itself.
pub open spec fn known_entry(entry: Seq<char>) -> bool {
    ||| entry_named(entry, "passes"@)
    ||| entry_named(entry, "mem"@)
    ||| entry_named(entry, "lanes"@)
    ||| entry_named(entry, "len"@)
    ||| entry_named(entry, "norm"@)
    ||| entry_named(entry, "len-calc"@)
    ||| entry_named(entry, "pmin"@)
    ||| entry_named(entry, "pmax"@)
    ||| entry_named(entry, "ver"@)
    ||| entry_named(entry, "xhmac"@)
    ||| entry_named(entry, "xhmac-alg"@)
}

/// Whether every non-empty entry of the comma-separated list `p`, from
/// position `i` on, is a known one.
pub open spec fn entries_known(p: Seq<char>, i: int) -> bool
    decreases p.len() - i,
{
    if i < 0 || i > p.len() {
        true
    } else {
        let e = next_pos(p, ',', i);
        proof {
            lemma_next_pos_range(p, ',', i);
        }
        let entry = p.subrange(i, e);
        &&& (entry.len() == 0 || known_entry(entry))
        &&& (e < p.len() ==> entries_known(p, e + 1))
    }
}

/// Whether the parameter `key` of `p`, when given, reads as a number from
/// `lo` to `hi`.
pub open spec fn value_within(p: Seq<char>, key: Seq<char>, lo: nat, hi: nat) -> bool {
    match last_value(p, key, 0) {
        None => true,
        Some(v) => u32_text_value(v) matches Some(n) && lo <= n <= hi,
    }
}

/// Whether a stored text is an Argon2 hash whose explicit `mem` and `lanes`
/// parameters are each accepted by libreauth (`mem` 7 to 18, the base-2
/// logarithm of the memory in KiB; `lanes` 1 to 128) but together ask for
/// less than 8 KiB of memory per lane, which the argon2 crate refuses and
/// libreauth then unwraps when it re-hashes a password. Texts with an
/// unknown parameter, or with `passes` outside 1 to 1024 or `len` outside
/// 32 to 256, do not count: libreauth refuses them before it hashes. Not
/// looked at: whether the text has a salt of 8 to 256 bytes and a hash,
/// and whether the password's length is within the text's limits; where
/// they fail libreauth also stops before hashing, so the conflict is stated
/// wider than the panic there.
pub open spec fn argon2_costs_conflict(s: Seq<char>) -> bool {
    &&& s.len() >= 8
    &&& s.subrange(0, 8) == "$argon2$"@
    &&& entries_known(argon2_params(s), 0)
    &&& value_within(argon2_params(s), "passes"@, 1, 1024)
    &&& value_within(argon2_params(s), "len"@, 32, 256)
    &&& match (
        last_value(argon2_params(s), "mem"@, 0),
        last_value(argon2_params(s), "lanes"@, 0),
    ) {
        (Some(mv), Some(lv)) => match (u32_text_value(mv), u32_text_value(lv)) {
            (Some(m), Some(l)) => 7 <= m <= 18 && 1 <= l <= 128 && two_to(m) < 8 * l,
            _ => false,
        },
        _ => false,
    }
}

/// Whether checking a password against a stored text cannot run into
/// conflicting Argon2 costs. Absent parameters take libreauth's defaults
/// (`mem` 12, `lanes` 4), which never conflict.
pub open spec fn argon2_costs_consistent(s: Seq<char>) -> bool {
    !argon2_costs_conflict(s)
}

/// First position at or after `i` that holds `c`, or the length.
fn find_pos(v: &Vec<char>, c: char, i: usize) -> (r: usize)
    requires
        i <= v.len(),
    ensures
        r as int == next_pos(v@, c, i as int),
        i <= r <= v.len(),
{
    let mut j: usize = i;
    while j < v.len()
        invariant
            i <= j <= v.len(),
            next_pos(v@, c, i as int) == next_pos(v@, c, j as int),
        decreases v.len() - j,
    {
        if v[j] == c {
            return j;
        }
        j = j + 1;
    }
    j
}

/// The characters of `v` from `from` to `to`.
fn copy_range(v: &Vec<char>, from: usize, to: usize) -> (r: Vec<char>)
    requires
        from <= to <= v.len(),
    ensures
        r@ == v@.subrange(from as int, to as int),
{
    let mut out: Vec<char> = Vec::new();
    let mut j: usize = from;
    while j < to
        invariant
            from <= j <= to <= v.len(),
            out@ == v@.subrange(from as int, j as int),
        decreases to - j,
    {
        out.push(v[j]);
        j = j + 1;
        assert(out@ =~= v@.subrange(from as int, j as int));
    }
    out
}

/// Whether `key` occurs in `v` at position `i`.
fn occurs_at(v: &Vec<char>, i: usize, key: &Vec<char>) -> (r: bool)
    requires
        i + key.len() <= v.len(),
    ensures
        r == (v@.subrange(i as int, i + key.len()) == key@),
{
    let mut k: usize = 0;
    while k < key.len()
        invariant
            k <= key.len(),
            i + key.len() <= v.len(),
            v@.subrange(i as int, i + k) == key@.subrange(0, k as int),
        decreases key.len() - k,
    {
        if v[i + k] != key[k] {
            assert(v@.subrange(i as int, i + key.len())[k as int] != key@[k as int]);
            return false;
        }
        k = k + 1;
        assert(v@.subrange(i as int, i + k) =~= key@.subrange(0, k as int));
    }
    assert(key@.subrange(0, key.len() as int) =~= key@);
    true
}

/// The value of the last `key=value` entry at or after position `i`.
fn last_value_from(p: &Vec<char>, key: &Vec<char>, i: usize) -> (r: Option<Vec<char>>)
    requires
        i <= p.len(),
    ensures
        match r {
            Some(v) => last_value(p@, key@, i as int) == Some(v@),
            None => last_value(p@, key@, i as int) is None,
        },
    decreases p.len() - i,
{
    let e = find_pos(p, ',', i);
    proof {
        lemma_next_pos_range(p@, ',', i as int);
    }
    if e < p.len() {
        let later = last_value_from(p, key, e + 1);
        if later.is_some() {
            return later;
        }
    }
    let ghost entry = p@.subrange(i as int, e as int);
    if e - i > key.len() && occurs_at(p, i, key) && p[i + key.len()] == '=' {
        assert(entry.subrange(0, key.len() as int) =~= p@.subrange(i as int, i + key.len()));
        let v = copy_range(p, i + key.len() + 1, e);
        assert(v@ =~= entry.subrange(key.len() + 1, entry.len() as int));
        Some(v)
    } else {
        proof {
            if entry.len() > key.len() {
                assert(entry.subrange(0, key.len() as int) =~= p@.subrange(i as int, i + key.len()));
                assert(entry[key.len() as int] == p@[i + key.len()]);
            }
        }
        None
    }
}

/// Whether the entry from `i` to `e` of `p` is a `key=value` entry.
fn entry_named_at(p: &Vec<char>, i: usize, e: usize, key: &str) -> (r: bool)
    requires
        i <= e <= p.len(),
    ensures
        r == entry_named(p@.subrange(i as int, e as int), key@),
{
    let k = str_chars(key);
    let ghost entry = p@.subrange(i as int, e as int);
    if e - i > k.len() && occurs_at(p, i, &k) && p[i + k.len()] == '=' {
        assert(entry.subrange(0, k.len() as int) =~= p@.subrange(i as int, i + k.len()));
        true
    } else {
        proof {
            if entry.len() > k.len() {
                assert(entry.subrange(0, k.len() as int) =~= p@.subrange(i as int, i + k.len()));
                assert(entry[k.len() as int] == p@[i + k.len()]);
            }
        }
        false
    }
}

/// Whether the entries of `p` from position `i` on are all known.
fn entries_known_from(p: &Vec<char>, i: usize) -> (r: bool)
    requires
        i <= p.len(),
    ensures
        r == entries_known(p@, i as int),
    decreases p.len() - i,
{
    let e = find_pos(p, ',', i);
    proof {
        lemma_next_pos_range(p@, ',', i as int);
    }
    let known = e == i || entry_named_at(p, i, e, "passes") || entry_named_at(p, i, e, "mem")
        || entry_named_at(p, i, e, "lanes") || entry_named_at(p, i, e, "len")
        || entry_named_at(p, i, e, "norm") || entry_named_at(p, i, e, "len-calc")
        || entry_named_at(p, i, e, "pmin") || entry_named_at(p, i, e, "pmax")
        || entry_named_at(p, i, e, "ver") || entry_named_at(p, i, e, "xhmac")
        || entry_named_at(p, i, e, "xhmac-alg");
    if !known {
        return false;
    }
    if e < p.len() {
        entries_known_from(p, e + 1)
    } else {
        true
    }
}

/// Whether the parameter `key` of `p`, when given, reads as a number from
/// `lo` to `hi`.
fn value_within_exec(p: &Vec<char>, key: &str, lo: u64, hi: u64) -> (r: bool)
    ensures
        r == value_within(p@, key@, lo as nat, hi as nat),
{
    let k = str_chars(key);
    match last_value_from(p, &k, 0) {
        None => true,
        Some(v) => match u32_value(&v) {
            Some(n) => lo <= n && n <= hi,
            None => false,
        },
    }
}

proof fn lemma_digits_push(d: Seq<char>, c: char)
    ensures
        digits_value(d.push(c)) == digits_value(d) * 10 + ((c as int - 48) as nat),
{
    assert(d.push(c).drop_last() =~= d);
}

/// What `str::parse::<u32>` gives for `v`, as a `u64`.
fn u32_value(v: &Vec<char>) -> (r: Option<u64>)
    ensures
        match u32_text_value(v@) {
            Some(n) => r == Some(n as u64),
            None => r is None,
        },
{
    let start: usize = if v.len() > 0 && v[0] == '+' { 1 } else { 0 };
    let ghost d = if v@.len() > 0 && v@[0] == '+' { v@.drop_first() } else { v@ };
    assert(d =~= v@.subrange(start as int, v.len() as int));
    if start >= v.len() {
        return None;
    }
    let cap: u64 = 4294967296;
    let mut val: u64 = 0;
    let mut j: usize = start;
    while j < v.len()
        invariant
            start <= j <= v.len(),
            d == v@.subrange(start as int, v.len() as int),
            d == (if v@.len() > 0 && v@[0] == '+' { v@.drop_first() } else { v@ }),
            all_digits(v@.subrange(start as int, j as int)),
            cap == 4294967296,
            val == if digits_value(v@.subrange(start as int, j as int)) < cap {
                digits_value(v@.subrange(start as int, j as int))
            } else {
                cap as nat
            },
        decreases v.len() - j,
    {
        let c = v[j];
        if c < '0' || c > '9' {
            assert(d[j - start] == c);
            assert(!all_digits(d));
            return None;
        }
        let ghost before = v@.subrange(start as int, j as int);
        proof {
            assert(v@.subrange(start as int, j + 1) =~= before.push(c));
            lemma_digits_push(before, c);
        }
        let dig: u64 = ((c as u32) - 48) as u64;
        if val < cap {
            let nv: u64 = val * 10 + dig;
            val = if nv < cap { nv } else { cap };
        }
        j = j + 1;
        assert(all_digits(v@.subrange(start as int, j as int)));
    }
    if val < cap {
        Some(val)
    } else {
        None
    }
}

/// Two to the power `n`, for small `n`.
fn two_to_exec(n: u64) -> (r: u64)
    requires
        n <= 18,
    ensures
        r == two_to(n as nat),
{
    let mut r: u64 = 1;
    let mut k: u64 = 0;
    while k < n
        invariant
            k <= n <= 18,
            r == two_to(k as nat),
        decreases n - k,
    {
        proof {
            assert(two_to((k + 1) as nat) == 2 * two_to(k as nat));
            lemma_two_to_bound(k as nat, n as nat);
        }
        r = r * 2;
        k = k + 1;
    }
    r
}

proof fn lemma_two_to_bound(k: nat, n: nat)
    requires
        k < n <= 18,
    ensures
        two_to(k + 1) <= 262144,
{
    lemma_two_to_mono(k + 1, 18);
    assert(two_to(18) == 262144) by {
        reveal_with_fuel(two_to, 19);
    }
}

proof fn lemma_two_to_mono(a: nat, b: nat)
    requires
        a <= b,
    ensures
        two_to(a) <= two_to(b),
    decreases b - a,
{
    if a < b {
        lemma_two_to_mono(a, (b - 1) as nat);
    }
}

/// Whether the Argon2 costs of a stored hash are consistent (see
/// [`argon2_costs_consistent`]).
pub fn check_argon2_costs(stored: &str) -> (r: bool)
    ensures
        r == argon2_costs_consistent(stored@),
{
    let s = str_chars(stored);
    let prefix = str_chars("$argon2$");
    if s.len() < 8 || prefix.len() != 8 || !occurs_at(&s, 0, &prefix) {
        return true;
    }
    let end = find_pos(&s, '$', 8);
    let p = copy_range(&s, 8, end);
    if !entries_known_from(&p, 0) || !value_within_exec(&p, "passes", 1, 1024) || !value_within_exec(&p, "len", 32, 256) {
        return true;
    }
    let mem_key = str_chars("mem");
    let lanes_key = str_chars("lanes");
    let mv = last_value_from(&p, &mem_key, 0);
    let lv = last_value_from(&p, &lanes_key, 0);
    match (mv, lv) {
        (Some(mv), Some(lv)) => match (u32_value(&mv), u32_value(&lv)) {
            (Some(m), Some(l)) => {
                if 7 <= m && m <= 18 && 1 <= l && l <= 128 {
                    let kib = two_to_exec(m);
                    !(kib < 8 * l)
                } else {
                    true
                }
            },
            _ => true,
        },
        _ => true,
    }
}

/// Whether `libreauth::pass::HashBuilder::from_phc` reads the stored text
/// (it parses the PHC string and its options; no hashing is done). Stated:
/// it succeeds exactly on readable texts.
#[verifier::external_body]
fn read_phc(stored: &str) -> (r: bool)
    ensures
        r == phc_readable(stored@),
{
    libreauth::pass::HashBuilder::from_phc(stored).is_ok()
}

/// Reads a readable stored hash with `HashBuilder::from_phc` and checks the
/// password with `Hasher::is_valid`. Stated: the answer is a function of the
/// stored hash and the password. libreauth compares the recomputed and
/// stored hashes through HMACs under a fresh random key; the contract takes
/// that comparison as equality of the two hashes, leaving out the negligible
/// chance of an HMAC collision. `is_valid` re-hashes the password and
/// unwraps the argon2 crate's result, which panics on conflicting Argon2
/// costs; `requires` leaves those texts out.
#[verifier::external_body]
fn check_phc(stored: &str, password: &str) -> (r: bool)
    requires
        phc_readable(stored@),
        argon2_costs_consistent(stored@),
    ensures
        r == phc_matches(stored@, password@),
{
    match libreauth::pass::HashBuilder::from_phc(stored) {
        Ok(h) => h.is_valid(password),
        Err(_) => false,
    }
}

/// The number of code points libreauth counts in a password: its length
/// after NFKC normalisation (`Hasher::normalize_password`, then
/// `password_length` by code points).
pub uninterp spec fn normalized_password_len(password: Seq<char>) -> nat;

/// Hashes a password with libreauth's Argon2 defaults and the given scheme
/// version (`HashBuilder::new().algorithm(Argon2).version(v).finalize()`,
/// then `Hasher::hash`). `HashBuilder::version` stores `v + 1`, which must
/// not overflow. Stated of a hash it returns: libreauth reads it back, its
/// Argon2 costs are the defaults (`mem` 12, `lanes` 4), the password matches
/// it, its `ver` parameter is `v + 1` in decimal, and it is not the password
/// (it is ASCII text longer than any password libreauth accepts). Stated of
/// success: hashing succeeds exactly when the normalised password has 8 to
/// 128 code points, libreauth's default limits; nothing else in `hash` can
/// fail with these settings. Not stated: the hash itself, which carries a
/// fresh random salt. libreauth draws the salt from the operating system
/// and panics if that source fails, which rests on the machine, not on the
/// arguments.
#[verifier::external_body]
pub(crate) fn hash_password(scheme_version: usize, password: &str) -> (r: Result<String, ()>)
    requires
        scheme_version < usize::MAX,
    ensures
        r matches Ok(h) ==> phc_readable(h@) && argon2_costs_consistent(h@) && phc_matches(h@, password@),
        r matches Ok(h) ==> last_value(argon2_params(h@), "ver"@, 0) == Some(decimal_digits((scheme_version + 1) as nat)),
        r matches Ok(h) ==> h@ != password@,
        8 <= normalized_password_len(password@) <= 128 <==> r is Ok,
{
    let hasher = libreauth::pass::HashBuilder::new()
        .algorithm(libreauth::pass::Algorithm::Argon2)
        .version(scheme_version)
        .finalize();
    match hasher {
        Ok(h) => h.hash(password).map_err(|_| ()),
        Err(_) => Err(()),
    }
}

/// Whether `need` is the password of the stored hash `store`.
pub fn hash_validation(store: String, need: String) -> (r: bool)
    requires
        phc_readable(store@),
        argon2_costs_consistent(store@),
    ensures
        r == phc_matches(store@, need@),
{
    check_phc(store.as_str(), need.as_str())
}

/// Like [`hash_validation`], for any stored text: `None` when the stored
/// text is not a readable hash or asks for conflicting Argon2 costs.
pub fn try_hash_validation(store: String, need: String) -> (r: Option<bool>)
    ensures
        r is Some <==> phc_readable(store@) && argon2_costs_consistent(store@),
        r matches Some(b) ==> b == phc_matches(store@, need@),
{
    if !check_argon2_costs(store.as_str()) || !read_phc(store.as_str()) {
        return None;
    }
    Some(hash_validation(store, need))
}

} // verus!
