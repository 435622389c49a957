//! Who may see the statistics page: a request that presents the one known pair
//! of name and password in an `Authorization` header of the `Basic` scheme.

use vstd::prelude::*;
use vstd::slice::slice_subrange;
use vstd::string::StringSliceAdditionalSpecFns;
use base64::Engine;

verus! {

/// The bytes that a text in base64, standard alphabet with padding, stands
/// for; none where the text is not valid base64.
pub uninterp spec fn base64_standard_decoded(text: Seq<u8>) -> Option<Seq<u8>>;

/// Calls `decode` of base64's `general_purpose::STANDARD` engine on `text`.
/// The decoding is a function of the text alone, so the contract gives it a
/// name and states nothing else of it: which texts are valid, and what they
/// decode to, is the engine's to say.
#[verifier::external_body]
fn decode_standard(text: &[u8]) -> (decoded: Option<Vec<u8>>)
    ensures
        match decoded {
            Some(bytes) => base64_standard_decoded(text@) == Some(bytes@),
            None => base64_standard_decoded(text@).is_none(),
        },
{
    base64::engine::general_purpose::STANDARD.decode(text).ok()
}

/// The scheme's name and the blank after it: `Basic `.
pub open spec fn scheme() -> Seq<u8> {
    seq![66u8, 97u8, 115u8, 105u8, 99u8, 32u8]
}

/// The name and password that open the page, joined by a colon:
/// `forecast:forecast`.
pub open spec fn expected_credentials() -> Seq<u8> {
    seq![
        102u8, 111u8, 114u8, 101u8, 99u8, 97u8, 115u8, 116u8, 58u8,
        102u8, 111u8, 114u8, 101u8, 99u8, 97u8, 115u8, 116u8,
    ]
}

/// True when `bytes` begin with the scheme's name.
pub open spec fn starts_with_scheme(bytes: Seq<u8>) -> bool {
    bytes.len() >= 6 && bytes.take(6) == scheme()
}

/// What is left of a header's value once the scheme's name has been taken from
/// its front as often as it stands there.
pub open spec fn credentials_of(bytes: Seq<u8>) -> Seq<u8>
    decreases bytes.len(),
{
    if starts_with_scheme(bytes) {
        credentials_of(bytes.skip(6))
    } else {
        bytes
    }
}

/// True when a header with this value opens the page: it names the scheme, and
/// what follows is the base64 text of the expected name and password.
pub open spec fn authorized(header: Seq<u8>) -> bool {
    starts_with_scheme(header) && base64_standard_decoded(credentials_of(header)) == Some(
        expected_credentials(),
    )
}

/// Tells whether the scheme's name stands at `at`.
fn scheme_at(bytes: &[u8], at: usize) -> (yes: bool)
    requires
        at <= bytes@.len(),
    ensures
        yes == starts_with_scheme(bytes@.skip(at as int)),
{
    let name: [u8; 6] = [66, 97, 115, 105, 99, 32];
    let n: usize = bytes.len();
    if n - at < 6 {
        return false;
    }
    let ghost rest = bytes@.skip(at as int);
    let mut i: usize = 0;
    while i < 6
        invariant
            i <= 6,
            at + 6 <= n,
            n == bytes@.len(),
            rest == bytes@.skip(at as int),
            name@ == scheme(),
            forall|k: int| 0 <= k < i ==> rest[k] == scheme()[k],
        decreases 6 - i,
    {
        if bytes[at + i] != name[i] {
            assert(rest.take(6)[i as int] != scheme()[i as int]);
            return false;
        }
        i += 1;
    }
    assert(rest.take(6) =~= scheme());
    true
}

/// The part of a header's value that holds the credentials.
pub fn strip_scheme(header: &[u8]) -> (rest: &[u8])
    ensures
        rest@ == credentials_of(header@),
{
    let n: usize = header.len();
    let mut at: usize = 0;
    assert(header@.skip(0) =~= header@);
    while scheme_at(header, at)
        invariant
            n == header@.len(),
            at <= n,
            credentials_of(header@) == credentials_of(header@.skip(at as int)),
        decreases header@.len() - at,
    {
        assert(header@.skip(at as int).skip(6) =~= header@.skip(at + 6));
        at += 6;
    }
    assert(header@.skip(at as int) =~= header@.subrange(at as int, header@.len() as int));
    slice_subrange(header, at, n)
}

/// Tells whether decoded credentials are the expected ones.
pub fn credentials_match(decoded: &[u8]) -> (yes: bool)
    ensures
        yes == (decoded@ == expected_credentials()),
{
    let expected: [u8; 17] = [
        102, 111, 114, 101, 99, 97, 115, 116, 58, 102, 111, 114, 101, 99, 97, 115, 116,
    ];
    assert(expected@ =~= expected_credentials());
    if decoded.len() != 17 {
        return false;
    }
    let mut i: usize = 0;
    while i < 17
        invariant
            i <= 17,
            decoded@.len() == 17,
            expected@ == expected_credentials(),
            forall|k: int| 0 <= k < i ==> decoded@[k] == expected@[k],
        decreases 17 - i,
    {
        if decoded[i] != expected[i] {
            return false;
        }
        i += 1;
    }
    assert(decoded@ =~= expected_credentials());
    true
}

/// Someone who presented the right credentials.
#[derive(Debug, Clone, Copy)]
pub struct User;

impl User {
    /// Admits the sender of a request by the value of its `Authorization`
    /// header, where it has one that is text.
    pub fn from_authorization(header: Option<&str>) -> (user: Option<User>)
        ensures
            user.is_some() == match header {
                Some(value) => authorized(value.spec_bytes()),
                None => false,
            },
    {
        match header {
            Some(value) => {
                let bytes = value.as_bytes();
                if !scheme_at(bytes, 0) {
                    assert(bytes@.skip(0) =~= bytes@);
                    return None;
                }
                assert(bytes@.skip(0) =~= bytes@);
                match decode_standard(strip_scheme(bytes)) {
                    Some(decoded) => if credentials_match(decoded.as_slice()) {
                        Some(User)
                    } else {
                        None
                    },
                    None => None,
                }
            },
            None => None,
        }
    }
}

} // verus!
