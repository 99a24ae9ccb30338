//! User registration: the signature that comes with a registration request is
//! decoded, the signer is recovered from the signed message and compared with
//! the public key given, and the user is stored once per address.
use vstd::prelude::*;
use vstd::slice::slice_subrange;
use vstd::utf8::encode_utf8;
use crate::ds::{
    address_text, full_hex, public_key_text, short_hex, Auth, UserAuthenticationSetup,
};
use crate::error_logging::{site_error, site_error_text};
use crate::signing::{
    eth_message, eth_signed_text, hex_decode, hex_decoded, keccak256_digest, recover_address,
    recovered_address,
};

verus! {

/// How `{:?}` writes a string: quoted, with `escape_debug` applied to its
/// characters (a function of the text alone).
pub uninterp spec fn debug_quoted(s: Seq<char>) -> Seq<char>;

/// How `{:02X?}` writes a recovery result of type `Result<Address, String>`:
/// the address in full lower-case hexadecimal inside `Ok(..)`, or the quoted
/// error text inside `Err(..)`.
pub open spec fn recovery_text_of(r: Result<Seq<u8>, Seq<char>>) -> Seq<char> {
    match r {
        Ok(a) => "Ok("@ + full_hex(a) + ")"@,
        Err(e) => "Err("@ + debug_quoted(e) + ")"@,
    }
}

/// `format!("{:02X?}", ..)` of a `Result<ethereum_types::H160, String>`: the
/// derived `Debug` of `Result` writes the variant name around its field; the
/// `Debug` of `H160` writes `{:#x}` whatever the flags, and the `Debug` of a
/// string writes it quoted and escaped. The escaping is named, not described.
#[verifier::external_body]
fn recovery_text(r: &Result<[u8; 20], String>) -> (res: String)
    ensures
        match r {
            Ok(a) => res@ == "Ok("@ + full_hex(a@) + ")"@,
            Err(e) => res@ == "Err("@ + debug_quoted(e@) + ")"@,
        },
{
    format!("{:02X?}", r.as_ref().map(|a| ethereum_types::H160(*a)))
}

/// The report for a signature that is not hexadecimal text.
pub open spec fn decode_error() -> Seq<char> {
    site_error("hex"@, "register_user"@, "diesel_postgres"@, "60"@, "failed to decode signature into hexcode"@)
}

/// The report for a signature from which no signer can be recovered.
pub open spec fn recover_error() -> Seq<char> {
    site_error("web3"@, "register_user"@, "diesel_postgres"@, "70"@, "failed to recover public key from message and signature"@)
}

/// The report for a recovered signer that differs from the given public key.
pub open spec fn mismatch_error() -> Seq<char> {
    site_error("_"@, "register_user"@, "diesel_postgres"@, "78"@, "public key given is not the same as the extracted public key"@)
}

/// The report for a failed lookup of the user's address.
pub open spec fn lookup_error() -> Seq<char> {
    site_error("Diesel"@, "register_user"@, "diesel_postgres"@, "90"@, "Failed to query select statement from Postgres"@)
}

/// The report for a failed insertion of the user.
pub open spec fn insert_error() -> Seq<char> {
    site_error("Diesel"@, "register_user"@, "diesel_postgres"@, "90"@, "Failed to insert user to table in Postgres"@)
}

/// The text of a recovery outcome: the address, or the report that recovery
/// failed, as `{:02X?}` writes them.
pub open spec fn signer_text_of(recovered: Option<Seq<u8>>) -> Seq<char> {
    recovery_text_of(
        match recovered {
            Some(a) => Ok(a),
            None => Err(recover_error()),
        },
    )
}

/// The text of the recovered signer for a decoded signature: the signer is
/// recovered from the personal-message digest of `message` and the first 64
/// bytes of the signature with recovery id 0.
pub open spec fn recovered_signer_text(message: Seq<char>, signature: Seq<u8>) -> Seq<char> {
    let digest = keccak256_digest(encode_utf8(eth_signed_text(message)));
    signer_text_of(recovered_address(digest, signature.take(64), 0))
}

/// What a registration request with the recovered signer text `signer` leads
/// to: the mismatch report unless the text equals the displayed public key,
/// and otherwise the row to store, given as (public key, address, email,
/// twitter) texts.
pub open spec fn registration_with_signer(a: UserAuthenticationSetup, signer: Seq<char>) -> Result<
    (Seq<char>, Seq<char>, Option<String>, Option<String>),
    Seq<char>,
> {
    if signer != short_hex(a.user_pubkey@) {
        Err(mismatch_error())
    } else {
        Ok((short_hex(a.user_pubkey@), short_hex(a.user_address@), a.email, a.twitter))
    }
}

/// What a registration request leads to: the report of the first check that
/// fails, or the row to store.
pub open spec fn registration_result(a: UserAuthenticationSetup) -> Result<
    (Seq<char>, Seq<char>, Option<String>, Option<String>),
    Seq<char>,
> {
    match hex_decoded(a.signature@) {
        None => Err(decode_error()),
        Some(sig) => registration_with_signer(a, recovered_signer_text(a.signed_msg@, sig)),
    }
}

/// The views of a row of the `auth` table.
pub open spec fn auth_view(row: Auth) -> (Seq<char>, Seq<char>, Option<String>, Option<String>) {
    (row.user_pubkey@, row.user_address@, row.email, row.twitter)
}

fn clone_text(s: &Option<String>) -> (res: Option<String>)
    ensures
        res == *s,
{
    match s {
        Some(t) => Some(t.clone()),
        None => None,
    }
}

/// The text of a recovery outcome (`None` where recovery failed), as the
/// registration check compares it with the given public key.
pub fn signer_text(recovered: Option<[u8; 20]>) -> (res: String)
    ensures
        res@ == signer_text_of(
            match recovered {
                Some(a) => Some(a@),
                None => None,
            },
        ),
{
    let outcome = match recovered {
        Some(a) => Ok(a),
        None => Err(site_error_text("web3", "register_user", "diesel_postgres", "70", "failed to recover public key from message and signature")),
    };
    recovery_text(&outcome)
}

/// The text of the signer recovered from the personal-message digest of
/// `message` and the first 64 bytes of `signature` (recovery id 0).
pub fn recovered_signer(message: &String, signature: &[u8]) -> (res: String)
    requires
        signature@.len() >= 64,
    ensures
        res@ == recovered_signer_text(message@, signature@),
{
    let digest = eth_message(message.clone());
    let compact = slice_subrange(signature, 0, 64);
    let recovered = recover_address(digest.as_slice(), compact, 0);
    assert(compact@ =~= signature@.take(64));
    signer_text(recovered)
}

/// The row to store for a registration request whose recovered signer text
/// is `signer`, or the mismatch report when that text is not the displayed
/// public key of the request.
pub fn registration_from_signer(authdata: &UserAuthenticationSetup, signer: &String) -> (res: Result<Auth, String>)
    ensures
        match res {
            Ok(row) => registration_with_signer(*authdata, signer@) == Ok::<_, Seq<char>>(auth_view(row)),
            Err(e) => registration_with_signer(*authdata, signer@) == Err::<(Seq<char>, Seq<char>, Option<String>, Option<String>), _>(e@),
        },
{
    let given = public_key_text(&authdata.user_pubkey);
    if !(*signer == given) {
        Err(site_error_text("_", "register_user", "diesel_postgres", "78", "public key given is not the same as the extracted public key"))
    } else {
        Ok(Auth {
            user_pubkey: given,
            user_address: address_text(&authdata.user_address),
            email: clone_text(&authdata.email),
            twitter: clone_text(&authdata.twitter),
        })
    }
}

/// Checks a registration request and returns the row to store for it, or the
/// report of the first check that fails.
pub fn check_registration(authdata: &UserAuthenticationSetup) -> (res: Result<Auth, String>)
    ensures
        match res {
            Ok(row) => registration_result(*authdata) == Ok::<_, Seq<char>>(auth_view(row)),
            Err(e) => registration_result(*authdata) == Err::<(Seq<char>, Seq<char>, Option<String>, Option<String>), _>(e@),
        },
{
    let decoded = hex_decode(authdata.signature.as_slice());
    match decoded {
        None => Err(site_error_text("hex", "register_user", "diesel_postgres", "60", "failed to decode signature into hexcode")),
        Some(signature) => {
            let signer = recovered_signer(&authdata.signed_msg, signature.as_slice());
            registration_from_signer(authdata, &signer)
        },
    }
}

/// What follows the lookup of the user's address: the report when the lookup
/// failed (`None`), the row to insert when no user has the address yet, and
/// nothing to do when one has.
pub fn registration_after_lookup(login: Auth, existing: Option<Vec<String>>) -> (res: Result<Option<Auth>, String>)
    ensures
        match existing {
            None => res matches Err(e) && e@ == lookup_error(),
            Some(rows) => if rows@.len() == 0 {
                res == Ok::<Option<Auth>, String>(Some(login))
            } else {
                res == Ok::<Option<Auth>, String>(None)
            },
        },
{
    match existing {
        None => Err(site_error_text("Diesel", "register_user", "diesel_postgres", "90", "Failed to query select statement from Postgres")),
        Some(rows) => if rows.len() == 0 {
            Ok(Some(login))
        } else {
            Ok(None)
        },
    }
}

/// What follows the insertion of a new user: success, or the report when the
/// insertion failed.
pub fn registration_after_insert(inserted: bool) -> (res: Result<(), String>)
    ensures
        inserted ==> res == Ok::<(), String>(()),
        !inserted ==> (res matches Err(e) && e@ == insert_error()),
{
    if inserted {
        Ok(())
    } else {
        Err(site_error_text("Diesel", "register_user", "diesel_postgres", "90", "Failed to insert user to table in Postgres"))
    }
}

/// The text of a recovered signer never equals the displayed form of a public
/// key: the first begins with `Ok(` or `Err(`, the second with `0x`.
pub proof fn recovered_text_never_matches(r: Result<Seq<u8>, Seq<char>>, key: Seq<u8>)
    ensures
        recovery_text_of(r) != short_hex(key),
{
    reveal_strlit("Ok(");
    reveal_strlit("Err(");
    reveal_strlit("0x");
    let t = recovery_text_of(r);
    let k = short_hex(key);
    match r {
        Ok(a) => {
            assert(t[0] == 'O');
        },
        Err(e) => {
            assert(t[0] == 'E');
        },
    }
    assert(k[0] == '0');
}

/// Whatever the recovery gives, its text is refused as a mismatch: no
/// registration reaches the database through a recovered signer.
pub proof fn recovered_signer_always_mismatches(a: UserAuthenticationSetup, recovered: Option<Seq<u8>>)
    ensures
        registration_with_signer(a, signer_text_of(recovered)) == Err::<(Seq<char>, Seq<char>, Option<String>, Option<String>), Seq<char>>(mismatch_error()),
{
    let r = match recovered {
        Some(x) => Ok(x),
        None => Err(recover_error()),
    };
    recovered_text_never_matches(r, a.user_pubkey@);
}

/// Every registration request is refused with the decoding report: the
/// signature field holds 65 bytes, and hexadecimal text has an even length.
pub proof fn registration_always_refused(a: UserAuthenticationSetup)
    ensures
        registration_result(a) == Err::<(Seq<char>, Seq<char>, Option<String>, Option<String>), Seq<char>>(decode_error()),
{
    signature_never_decodes(a.signature);
}

/// A 65-byte signature is never hexadecimal text: the text would need an
/// even number of digits.
pub proof fn signature_never_decodes(signature: [u8; 65])
    ensures
        hex_decoded(signature@) is None,
{
}

/// The view of a row of the `auth` table: public key, address, email and
/// twitter texts.
pub type AuthRowView = (Seq<char>, Seq<char>, Option<String>, Option<String>);

/// Some row of the table holds the address `addr`.
pub open spec fn table_has_address(t: Seq<AuthRowView>, addr: Seq<char>) -> bool {
    exists|i: int| 0 <= i < t.len() && (#[trigger] t[i]).1 == addr
}

/// No two rows of the table hold the same address.
pub open spec fn addresses_unique(t: Seq<AuthRowView>) -> bool {
    forall|i: int, j: int| 0 <= i < t.len() && 0 <= j < t.len() && i != j ==> (#[trigger] t[i]).1 != (#[trigger] t[j]).1
}

/// What storing a checked registration does to the `auth` table `t`: its
/// answer and the table after it. `checked` is the outcome of the checks
/// (the row to store, or a report); `lookup_ok` and `insert_ok` say whether
/// the database carries out the lookup of the address and the insertion of
/// the row. The row is inserted only when no row has its address.
pub open spec fn registration_effect_after_check(
    t: Seq<AuthRowView>,
    checked: Result<AuthRowView, Seq<char>>,
    lookup_ok: bool,
    insert_ok: bool,
) -> (Result<(), Seq<char>>, Seq<AuthRowView>) {
    match checked {
        Err(e) => (Err(e), t),
        Ok(row) => if !lookup_ok {
            (Err(lookup_error()), t)
        } else if table_has_address(t, row.1) {
            (Ok(()), t)
        } else if !insert_ok {
            (Err(insert_error()), t)
        } else {
            (Ok(()), t.push(row))
        },
    }
}

/// What a registration request does to the `auth` table `t`.
pub open spec fn registration_effect(
    t: Seq<AuthRowView>,
    a: UserAuthenticationSetup,
    lookup_ok: bool,
    insert_ok: bool,
) -> (Result<(), Seq<char>>, Seq<AuthRowView>) {
    registration_effect_after_check(t, registration_result(a), lookup_ok, insert_ok)
}

/// The views of the rows of a table.
pub open spec fn table_view(rows: Seq<Auth>) -> Seq<AuthRowView> {
    rows.map_values(|r: Auth| auth_view(r))
}

/// The addresses of the rows of `rows` that hold `addr`, as the lookup of a
/// registration selects them.
fn rows_with_address(rows: &Vec<Auth>, addr: &String) -> (res: Vec<String>)
    ensures
        (res@.len() == 0) == !table_has_address(table_view(rows@), addr@),
{
    let ghost t = table_view(rows@);
    let mut found: Vec<String> = Vec::new();
    let n = rows.len();
    let mut i: usize = 0;
    while i < n
        invariant
            n == rows@.len(),
            i <= n,
            t == table_view(rows@),
            (found@.len() == 0) == !(exists|k: int| 0 <= k < i && (#[trigger] t[k]).1 == addr@),
        decreases n - i,
    {
        assert(t[i as int] == auth_view(rows@[i as int]));
        if rows[i].user_address == *addr {
            found.push(rows[i].user_address.clone());
        }
        i = i + 1;
    }
    found
}

/// The view of the outcome of the checks of a registration.
pub open spec fn checked_view(checked: Result<Auth, String>) -> Result<AuthRowView, Seq<char>> {
    match checked {
        Ok(row) => Ok(auth_view(row)),
        Err(e) => Err(e@),
    }
}

/// Stores a checked registration in the `auth` table held in `rows`, the
/// database's success at the lookup and at the insertion being given: the
/// steps taken against the database, with the effect
/// `registration_effect_after_check`.
pub fn store_registration(rows: &mut Vec<Auth>, checked: Result<Auth, String>, lookup_ok: bool, insert_ok: bool) -> (res: Result<(), String>)
    ensures
        ({
            let effect = registration_effect_after_check(table_view(old(rows)@), checked_view(checked), lookup_ok, insert_ok);
            &&& table_view(final(rows)@) == effect.1
            &&& match res {
                Ok(()) => effect.0 == Ok::<(), Seq<char>>(()),
                Err(e) => effect.0 == Err::<(), Seq<char>>(e@),
            }
        }),
{
    let login = match checked {
        Ok(row) => row,
        Err(e) => return Err(e),
    };
    let existing = if lookup_ok {
        Some(rows_with_address(rows, &login.user_address))
    } else {
        None
    };
    match registration_after_lookup(login, existing) {
        Err(e) => Err(e),
        Ok(None) => Ok(()),
        Ok(Some(row)) => {
            let answer = registration_after_insert(insert_ok);
            if insert_ok {
                let ghost before = rows@;
                rows.push(row);
                assert(table_view(rows@) =~= table_view(before).push(auth_view(row)));
            }
            answer
        },
    }
}

/// A registration request carried out on the `auth` table held in `rows`:
/// the checks, then the storing, with the effect `registration_effect`.
pub fn register_in_table(rows: &mut Vec<Auth>, authdata: &UserAuthenticationSetup, lookup_ok: bool, insert_ok: bool) -> (res: Result<(), String>)
    ensures
        ({
            let effect = registration_effect(table_view(old(rows)@), *authdata, lookup_ok, insert_ok);
            &&& table_view(final(rows)@) == effect.1
            &&& match res {
                Ok(()) => effect.0 == Ok::<(), Seq<char>>(()),
                Err(e) => effect.0 == Err::<(), Seq<char>>(e@),
            }
        }),
{
    let checked = check_registration(authdata);
    store_registration(rows, checked, lookup_ok, insert_ok)
}

/// Storing a registration, whatever its checks gave, keeps the table at one
/// row per address.
pub proof fn registration_keeps_addresses_unique(
    t: Seq<AuthRowView>,
    checked: Result<AuthRowView, Seq<char>>,
    lookup_ok: bool,
    insert_ok: bool,
)
    requires
        addresses_unique(t),
    ensures
        addresses_unique(registration_effect_after_check(t, checked, lookup_ok, insert_ok).1),
{
    let t2 = registration_effect_after_check(t, checked, lookup_ok, insert_ok).1;
    if t2 != t {
        let row = checked->Ok_0;
        assert(t2 == t.push(row));
        assert(!table_has_address(t, row.1));
        assert forall|i: int, j: int| 0 <= i < t2.len() && 0 <= j < t2.len() && i != j implies (#[trigger] t2[i]).1 != (#[trigger] t2[j]).1 by {
            if i == t.len() {
                assert(t2[j] == t[j]);
            } else if j == t.len() {
                assert(t2[i] == t[i]);
            } else {
                assert(t2[i] == t[i] && t2[j] == t[j]);
            }
        }
    }
}

/// A registration that is answered with an error, whatever its checks gave,
/// leaves the table as it was.
pub proof fn failed_registration_leaves_table(
    t: Seq<AuthRowView>,
    checked: Result<AuthRowView, Seq<char>>,
    lookup_ok: bool,
    insert_ok: bool,
)
    ensures
        registration_effect_after_check(t, checked, lookup_ok, insert_ok).0 is Err
            ==> registration_effect_after_check(t, checked, lookup_ok, insert_ok).1 == t,
{
}

} // verus!
