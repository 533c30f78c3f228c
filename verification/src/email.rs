use vstd::prelude::*;
use vstd::string::*;

use crate::codec::random_u128;
use crate::error::Error;
use crate::text::{str_eq, string_of};

verus! {

/// How long an e-mail verification code stays valid, in minutes.
pub const CODE_LIFETIME_MINUTES: u64 = 15;

/// The decimal digit character of a value below ten.
pub open spec fn digit_char(d: int) -> char {
    if d == 0 {
        '0'
    } else if d == 1 {
        '1'
    } else if d == 2 {
        '2'
    } else if d == 3 {
        '3'
    } else if d == 4 {
        '4'
    } else if d == 5 {
        '5'
    } else if d == 6 {
        '6'
    } else if d == 7 {
        '7'
    } else if d == 8 {
        '8'
    } else {
        '9'
    }
}

/// The decimal text of a natural number, without leading zeros.
pub open spec fn decimal(n: nat) -> Seq<char>
    decreases n,
{
    if n < 10 {
        seq![digit_char(n as int)]
    } else {
        decimal(n / 10).push(digit_char((n % 10) as int))
    }
}

fn digit_of(d: u64) -> (c: char)
    requires
        d < 10,
    ensures
        c == digit_char(d as int),
{
    match d {
        0 => '0',
        1 => '1',
        2 => '2',
        3 => '3',
        4 => '4',
        5 => '5',
        6 => '6',
        7 => '7',
        8 => '8',
        _ => '9',
    }
}

fn decimal_chars(n: u64) -> (res: Vec<char>)
    ensures
        res@ == decimal(n as nat),
    decreases n,
{
    if n < 10 {
        let mut v: Vec<char> = Vec::new();
        v.push(digit_of(n));
        assert(v@ =~= seq![digit_char(n as int)]);
        v
    } else {
        let mut v = decimal_chars(n / 10);
        v.push(digit_of(n % 10));
        v
    }
}

/// The decimal text of a number, as `u64`'s `Display` and JSON write it.
pub fn u64_decimal(n: u64) -> (res: String)
    ensures
        res@ == decimal(n as nat),
{
    let v = decimal_chars(n);
    string_of(&v)
}

/// The code for a random value: a six-digit number from 100000 to 999999,
/// the value reduced modulo 900000 and moved up by 100000.
pub open spec fn spec_code_value(random: u128) -> nat {
    (random % 900000 + 100000) as nat
}

/// The six-digit verification code that a random value gives.
pub fn code_from(random: u128) -> (res: String)
    ensures
        res@ == decimal(spec_code_value(random)),
        res@.len() == 6,
{
    let n: u64 = ((random % 900000) + 100000) as u64;
    let mut digits: Vec<char> = Vec::new();
    digits.push(digit_of(n / 100000));
    digits.push(digit_of((n / 10000) % 10));
    digits.push(digit_of((n / 1000) % 10));
    digits.push(digit_of((n / 100) % 10));
    digits.push(digit_of((n / 10) % 10));
    digits.push(digit_of(n % 10));
    proof {
        let v = n as nat;
        assert(100000 <= v < 1000000);
        reveal_with_fuel(decimal, 7);
        assert(v / 10 / 10 / 10 / 10 / 10 == v / 100000);
        assert(v / 10 / 10 / 10 / 10 == v / 10000);
        assert(v / 10 / 10 / 10 == v / 1000);
        assert(v / 10 / 10 == v / 100);
        assert(decimal(v / 100000) == seq![digit_char((v / 100000) as int)]);
        assert(digits@ =~= decimal(v));
    }
    string_of(&digits)
}

/// A fresh verification code: six random digits, the first not zero.
pub fn new_verification_code() -> (res: String)
    ensures
        res@.len() == 6,
        exists|r: u128| res@ == decimal(#[trigger] spec_code_value(r)),
{
    let r = random_u128();
    let code = code_from(r);
    assert(code@ == decimal(spec_code_value(r)));
    code
}

/// Adding an e-mail address: refused when the user has as many addresses
/// as allowed, or when someone has verified the address already.
pub fn add_gate(email_count: u64, max_user_emails: usize, verified_by_anyone: bool) -> (res:
    Result<(), Error>)
    ensures
        email_count >= max_user_emails ==> (res matches Err(Error::BadRequest(m)) && m@
            == "Maximum number of email addresses reached."@),
        email_count < max_user_emails && verified_by_anyone ==> (res matches Err(
            Error::BadRequest(m),
        ) && m@ == "Email address is already in use."@),
        email_count < max_user_emails && !verified_by_anyone ==> res is Ok,
{
    if email_count as u128 >= max_user_emails as u128 {
        return Err(Error::BadRequest(String::from_str("Maximum number of email addresses reached.")));
    }
    if verified_by_anyone {
        return Err(Error::BadRequest(String::from_str("Email address is already in use.")));
    }
    Ok(())
}

/// Storing a new address fails with `EmailAlreadyExists` when the user has
/// it already (a unique violation); any other failure keeps its message.
pub fn insert_failure(unique_violation: bool, message: String) -> (res: Error)
    ensures
        unique_violation ==> res matches Error::EmailAlreadyExists,
        !unique_violation ==> (res matches Error::Sqlx(m) && m@ == message@),
{
    if unique_violation {
        Error::EmailAlreadyExists
    } else {
        Error::Sqlx(message)
    }
}

/// Using a verification code: the address may not be verified by someone
/// else, and the code must exist and not have expired (its expiry strictly
/// after now); a wrong or expired code is answered as bad credentials.
pub fn verify_use_gate(
    user_id: u128,
    verified_owner: Option<u128>,
    code_expires_at: Option<i128>,
    now: i128,
) -> (res: Result<(), Error>)
    ensures
        (verified_owner matches Some(o) && o != user_id) ==> (res matches Err(
            Error::BadRequest(m),
        ) && m@ == "Email address is already in use."@),
        !(verified_owner matches Some(o) && o != user_id) ==> match code_expires_at {
            Some(t) => if now < t {
                res is Ok
            } else {
                res matches Err(Error::InvalidCredentials)
            },
            None => res matches Err(Error::InvalidCredentials),
        },
{
    if let Some(o) = verified_owner {
        if o != user_id {
            return Err(Error::BadRequest(String::from_str("Email address is already in use.")));
        }
    }
    match code_expires_at {
        Some(t) => {
            if now < t {
                Ok(())
            } else {
                Err(Error::InvalidCredentials)
            }
        },
        None => Err(Error::InvalidCredentials),
    }
}

/// Deleting an address that the user does not have is "not found".
pub fn delete_outcome(rows_affected: u64) -> (res: Result<(), Error>)
    ensures
        rows_affected == 0 ==> res matches Err(Error::NotFound),
        rows_affected > 0 ==> res is Ok,
{
    if rows_affected == 0 {
        Err(Error::NotFound)
    } else {
        Ok(())
    }
}

/// An e-mail address of a user, as stored.
pub struct StoredAddress {
    pub user_id: u128,
    pub addr: String,
    pub verified: bool,
}

/// A verification code sent to an address, as stored.
pub struct StoredCode {
    pub user_id: u128,
    pub addr: String,
    pub code: String,
    pub expires_at: i128,
}

/// The stored addresses and the pending verification codes.
pub struct EmailStore {
    pub addresses: Vec<StoredAddress>,
    pub codes: Vec<StoredCode>,
}

pub open spec fn address_view(a: StoredAddress) -> (u128, Seq<char>, bool) {
    (a.user_id, a.addr@, a.verified)
}

pub open spec fn code_view(c: StoredCode) -> (u128, Seq<char>, Seq<char>, i128) {
    (c.user_id, c.addr@, c.code@, c.expires_at)
}

impl EmailStore {
    /// The stored addresses: owner, address, whether verified.
    pub open spec fn addresses_view(&self) -> Seq<(u128, Seq<char>, bool)> {
        self.addresses@.map_values(|a: StoredAddress| address_view(a))
    }

    /// The pending codes: owner, address, code, expiry.
    pub open spec fn codes_view(&self) -> Seq<(u128, Seq<char>, Seq<char>, i128)> {
        self.codes@.map_values(|c: StoredCode| code_view(c))
    }
}

/// Whether someone other than `user` has verified `addr`.
pub open spec fn taken_by_other(addrs: Seq<(u128, Seq<char>, bool)>, user: u128, addr: Seq<char>) -> bool {
    exists|i: int| 0 <= i < addrs.len() && (#[trigger] addrs[i]).1 == addr && addrs[i].2 && addrs[i].0 != user
}

pub open spec fn is_code_for(c: (u128, Seq<char>, Seq<char>, i128), user: u128, addr: Seq<char>, code: Seq<char>) -> bool {
    c.0 == user && c.1 == addr && c.2 == code
}

/// Whether the `k`th pending code is the first one for this user, address and code.
pub open spec fn is_first_code(
    codes: Seq<(u128, Seq<char>, Seq<char>, i128)>,
    user: u128,
    addr: Seq<char>,
    code: Seq<char>,
    k: int,
) -> bool {
    0 <= k < codes.len() && is_code_for(codes[k], user, addr, code) && forall|j: int|
        0 <= j < k ==> !is_code_for(codes[j], user, addr, code)
}

/// Whether the code is pending for this user and address and, as first
/// found, has not expired at `now`.
pub open spec fn code_live(
    codes: Seq<(u128, Seq<char>, Seq<char>, i128)>,
    user: u128,
    addr: Seq<char>,
    code: Seq<char>,
    now: i128,
) -> bool {
    exists|k: int| #[trigger] is_first_code(codes, user, addr, code, k) && now < codes[k].3
}

/// What verifying `addr` for `user` does to one stored address: other
/// users' unverified entries for it are dropped, the user's entries for it
/// become verified, the rest stay.
pub open spec fn address_step(user: u128, addr: Seq<char>) -> spec_fn((u128, Seq<char>, bool)) -> Option<
    (u128, Seq<char>, bool),
> {
    |a: (u128, Seq<char>, bool)|
        if a.1 == addr && !a.2 && a.0 != user {
            None
        } else if a.0 == user && a.1 == addr {
            Some((a.0, a.1, true))
        } else {
            Some(a)
        }
}

/// The addresses after `user` verified `addr`.
pub open spec fn addresses_after(addrs: Seq<(u128, Seq<char>, bool)>, user: u128, addr: Seq<char>) -> Seq<
    (u128, Seq<char>, bool),
> {
    addrs.filter_map(address_step(user, addr))
}

/// What using a code does to one pending code: every copy of it is dropped.
pub open spec fn code_step(user: u128, addr: Seq<char>, code: Seq<char>) -> spec_fn(
    (u128, Seq<char>, Seq<char>, i128),
) -> Option<(u128, Seq<char>, Seq<char>, i128)> {
    |c: (u128, Seq<char>, Seq<char>, i128)|
        if is_code_for(c, user, addr, code) {
            None
        } else {
            Some(c)
        }
}

/// The codes after a code was used.
pub open spec fn codes_after(
    codes: Seq<(u128, Seq<char>, Seq<char>, i128)>,
    user: u128,
    addr: Seq<char>,
    code: Seq<char>,
) -> Seq<(u128, Seq<char>, Seq<char>, i128)> {
    codes.filter_map(code_step(user, addr, code))
}

/// How using a verification code ends.
#[derive(Clone, Copy, PartialEq, Eq, Structural, Debug)]
pub enum VerifyUse {
    /// The address is verified and the code consumed.
    Verified,
    /// Someone else has verified the address.
    InUse,
    /// The code is unknown or expired.
    Invalid,
}

/// Using a verification code on stored state: the outcome and the state after.
pub open spec fn spec_verify_use(
    addrs: Seq<(u128, Seq<char>, bool)>,
    codes: Seq<(u128, Seq<char>, Seq<char>, i128)>,
    user: u128,
    addr: Seq<char>,
    code: Seq<char>,
    now: i128,
) -> (VerifyUse, Seq<(u128, Seq<char>, bool)>, Seq<(u128, Seq<char>, Seq<char>, i128)>) {
    if taken_by_other(addrs, user, addr) {
        (VerifyUse::InUse, addrs, codes)
    } else if !code_live(codes, user, addr, code, now) {
        (VerifyUse::Invalid, addrs, codes)
    } else {
        (VerifyUse::Verified, addresses_after(addrs, user, addr), codes_after(codes, user, addr, code))
    }
}

/// Each element of a `filter_map` comes from an element of the source.
proof fn lemma_filter_map_source<A, B>(s: Seq<A>, f: spec_fn(A) -> Option<B>, j: int)
    requires
        0 <= j < s.filter_map(f).len(),
    ensures
        exists|i: int| 0 <= i < s.len() && f(#[trigger] s[i]) == Some(s.filter_map(f)[j]),
    decreases s.len(),
{
    let rest = s.drop_last();
    match f(s.last()) {
        Some(x) => {
            if j < rest.filter_map(f).len() {
                lemma_filter_map_source(rest, f, j);
                let i = choose|i: int| 0 <= i < rest.len() && f(#[trigger] rest[i]) == Some(rest.filter_map(f)[j]);
                assert(s[i] == rest[i]);
            } else {
                assert(f(s[s.len() - 1]) == Some(s.filter_map(f)[j]));
            }
        },
        None => {
            lemma_filter_map_source(rest, f, j);
            let i = choose|i: int| 0 <= i < rest.len() && f(#[trigger] rest[i]) == Some(rest.filter_map(f)[j]);
            assert(s[i] == rest[i]);
        },
    }
}

/// A verification code works once: after a use that verified the address,
/// the same use again is refused as invalid and changes nothing.
pub proof fn law_verification_code_is_single_use(
    addrs: Seq<(u128, Seq<char>, bool)>,
    codes: Seq<(u128, Seq<char>, Seq<char>, i128)>,
    user: u128,
    addr: Seq<char>,
    code: Seq<char>,
    now: i128,
)
    requires
        spec_verify_use(addrs, codes, user, addr, code, now).0 == VerifyUse::Verified,
    ensures
        ({
            let (_, a2, c2) = spec_verify_use(addrs, codes, user, addr, code, now);
            spec_verify_use(a2, c2, user, addr, code, now) == (VerifyUse::Invalid, a2, c2)
        }),
{
    let a2 = addresses_after(addrs, user, addr);
    let c2 = codes_after(codes, user, addr, code);
    let fa = address_step(user, addr);
    let fc = code_step(user, addr, code);
    assert forall|j: int| 0 <= j < a2.len() implies !((#[trigger] a2[j]).1 == addr && a2[j].2 && a2[j].0 != user) by {
        lemma_filter_map_source(addrs, fa, j);
        let i = choose|i: int| 0 <= i < addrs.len() && fa(#[trigger] addrs[i]) == Some(addrs.filter_map(fa)[j]);
        if a2[j].1 == addr && a2[j].2 && a2[j].0 != user {
            assert(addrs[i] == a2[j]);
            assert(taken_by_other(addrs, user, addr));
        }
    }
    assert forall|k: int| !#[trigger] is_first_code(c2, user, addr, code, k) by {
        if 0 <= k < c2.len() {
            lemma_filter_map_source(codes, fc, k);
        }
    }
}

/// Uses a verification code (see `spec_verify_use`): nothing changes unless
/// the address is verified, in which case the user's entries for it are
/// verified, other users' unverified entries for it dropped, and the code
/// consumed.
pub fn verify_use(store: &mut EmailStore, user: u128, addr: &str, code: &str, now: i128) -> (res: VerifyUse)
    ensures
        (res, final(store).addresses_view(), final(store).codes_view()) == spec_verify_use(
            old(store).addresses_view(),
            old(store).codes_view(),
            user,
            addr@,
            code@,
            now,
        ),
{
    let ghost av = store.addresses_view();
    let ghost cv = store.codes_view();
    // someone else's verified entry?
    let mut i: usize = 0;
    while i < store.addresses.len()
        invariant
            i <= store.addresses@.len(),
            av == store.addresses_view(),
            forall|j: int| 0 <= j < i ==> !((#[trigger] av[j]).1 == addr@ && av[j].2 && av[j].0 != user),
        decreases store.addresses.len() - i,
    {
        let a = &store.addresses[i];
        assert(av[i as int] == address_view(store.addresses@[i as int]));
        if a.verified && a.user_id != user && str_eq(a.addr.as_str(), addr) {
            return VerifyUse::InUse;
        }
        i = i + 1;
    }
    assert(!taken_by_other(av, user, addr@));
    // the first matching code
    let mut k: usize = 0;
    let mut found = false;
    while k < store.codes.len() && !found
        invariant
            k <= store.codes@.len(),
            cv == store.codes_view(),
            forall|j: int| 0 <= j < k ==> !is_code_for(#[trigger] cv[j], user, addr@, code@),
            found ==> k < store.codes@.len() && is_code_for(cv[k as int], user, addr@, code@),
        decreases store.codes.len() - k + (if found { 0int } else { 1int }),
    {
        let c = &store.codes[k];
        assert(cv[k as int] == code_view(store.codes@[k as int]));
        if c.user_id == user && str_eq(c.addr.as_str(), addr) && str_eq(c.code.as_str(), code) {
            found = true;
        } else {
            k = k + 1;
        }
    }
    if !found {
        assert forall|m: int| !#[trigger] is_first_code(cv, user, addr@, code@, m) by {
            if 0 <= m < cv.len() {
                assert(!is_code_for(cv[m], user, addr@, code@));
            }
        }
        return VerifyUse::Invalid;
    }
    assert(is_first_code(cv, user, addr@, code@, k as int));
    assert forall|m: int| #[trigger] is_first_code(cv, user, addr@, code@, m) implies m == k as int by {
        if m < k as int {
        } else if m > k as int {
            assert(!is_code_for(cv[k as int], user, addr@, code@));
        }
    }
    if !(now < store.codes[k].expires_at) {
        assert(cv[k as int].3 == store.codes@[k as int].expires_at);
        return VerifyUse::Invalid;
    }
    assert(code_live(cv, user, addr@, code@, now));
    // rebuild the addresses
    let ghost fa = address_step(user, addr@);
    let mut na: Vec<StoredAddress> = Vec::new();
    let mut i: usize = 0;
    while i < store.addresses.len()
        invariant
            i <= store.addresses@.len(),
            av == store.addresses_view(),
            fa == address_step(user, addr@),
            na@.map_values(|a: StoredAddress| address_view(a)) == av.take(i as int).filter_map(fa),
        decreases store.addresses.len() - i,
    {
        let a = &store.addresses[i];
        let ghost before = na@;
        assert(av[i as int] == address_view(store.addresses@[i as int]));
        assert(av.take(i + 1).drop_last() =~= av.take(i as int));
        assert(av.take(i + 1).last() == av[i as int]);
        let ghost x = av[i as int];
        let ghost prev = av.take(i as int).filter_map(fa);
        let same = str_eq(a.addr.as_str(), addr);
        if same && !a.verified && a.user_id != user {
            assert(fa(x) is None);
            assert(av.take(i + 1).filter_map(fa) == prev);
        } else if a.user_id == user && same {
            na.push(StoredAddress { user_id: a.user_id, addr: a.addr.clone(), verified: true });
            assert(fa(x) == Some((x.0, x.1, true)));
            assert(av.take(i + 1).filter_map(fa) == prev + seq![(x.0, x.1, true)]);
            assert(na@.map_values(|a: StoredAddress| address_view(a)) =~= prev + seq![(x.0, x.1, true)]);
        } else {
            na.push(StoredAddress { user_id: a.user_id, addr: a.addr.clone(), verified: a.verified });
            assert(fa(x) == Some(x));
            assert(av.take(i + 1).filter_map(fa) == prev + seq![x]);
            assert(na@.map_values(|a: StoredAddress| address_view(a)) =~= prev + seq![x]);
        }
        i = i + 1;
    }
    assert(av.take(av.len() as int) =~= av);
    // rebuild the codes
    let ghost fc = code_step(user, addr@, code@);
    let mut nc: Vec<StoredCode> = Vec::new();
    let mut j: usize = 0;
    while j < store.codes.len()
        invariant
            j <= store.codes@.len(),
            cv == store.codes_view(),
            fc == code_step(user, addr@, code@),
            nc@.map_values(|c: StoredCode| code_view(c)) == cv.take(j as int).filter_map(fc),
        decreases store.codes.len() - j,
    {
        let c = &store.codes[j];
        let ghost before = nc@;
        assert(cv[j as int] == code_view(store.codes@[j as int]));
        assert(cv.take(j + 1).drop_last() =~= cv.take(j as int));
        assert(cv.take(j + 1).last() == cv[j as int]);
        let ghost x = cv[j as int];
        let ghost prev = cv.take(j as int).filter_map(fc);
        if c.user_id == user && str_eq(c.addr.as_str(), addr) && str_eq(c.code.as_str(), code) {
            assert(fc(x) is None);
            assert(cv.take(j + 1).filter_map(fc) == prev);
        } else {
            nc.push(
                StoredCode {
                    user_id: c.user_id,
                    addr: c.addr.clone(),
                    code: c.code.clone(),
                    expires_at: c.expires_at,
                },
            );
            assert(fc(x) == Some(x));
            assert(cv.take(j + 1).filter_map(fc) == prev + seq![x]);
            assert(nc@.map_values(|c: StoredCode| code_view(c)) =~= prev + seq![x]);
        }
        j = j + 1;
    }
    assert(cv.take(cv.len() as int) =~= cv);
    store.addresses = na;
    store.codes = nc;
    assert(addresses_after(av, user, addr@) == av.filter_map(fa));
    assert(codes_after(cv, user, addr@, code@) == cv.filter_map(fc));
    VerifyUse::Verified
}

/// The answer to a use of a verification code.
pub fn verify_use_answer(o: VerifyUse) -> (res: Result<(), Error>)
    ensures
        o == VerifyUse::Verified ==> res is Ok,
        o == VerifyUse::InUse ==> (res matches Err(Error::BadRequest(m)) && m@
            == "Email address is already in use."@),
        o == VerifyUse::Invalid ==> res matches Err(Error::InvalidCredentials),
{
    match o {
        VerifyUse::Verified => Ok(()),
        VerifyUse::InUse => Err(Error::BadRequest(String::from_str("Email address is already in use."))),
        VerifyUse::Invalid => Err(Error::InvalidCredentials),
    }
}

} // verus!
