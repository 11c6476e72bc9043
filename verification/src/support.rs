//! Outcome records for the platform services around the bridge, and the
//! decisions that fill them in.
//!
//! The unverified shells run the platform side — a keychain call, an
//! authentication prompt, an outbound HTTP request — and hand the raw
//! outcome here as plain values; these functions make every decision about
//! it: how a failure is classified, which message is reported, and when an
//! outcome still counts as success.

use vstd::prelude::*;

use crate::text::to_char_vec;

verus! {

/// Outcome of a biometric availability check or authentication attempt.
pub struct BiometricResult {
    pub success: bool,
    pub available: bool,
    pub error: Option<String>,
}

/// Ghost image of a [`BiometricResult`].
pub struct BiometricView {
    pub success: bool,
    pub available: bool,
    pub error: Option<Seq<char>>,
}

impl View for BiometricResult {
    type V = BiometricView;

    open spec fn view(&self) -> BiometricView {
        BiometricView {
            success: self.success,
            available: self.available,
            error: match self.error {
                Some(ref e) => Some(e@),
                None => None,
            },
        }
    }
}

/// Outcome of storing or deleting the stored credential.
pub struct KeychainResult {
    pub success: bool,
    pub error: Option<String>,
}

/// Ghost image of a [`KeychainResult`].
pub struct KeychainView {
    pub success: bool,
    pub error: Option<Seq<char>>,
}

impl View for KeychainResult {
    type V = KeychainView;

    open spec fn view(&self) -> KeychainView {
        KeychainView {
            success: self.success,
            error: match self.error {
                Some(ref e) => Some(e@),
                None => None,
            },
        }
    }
}

/// Outcome of loading the stored credential.
pub struct KeychainGetResult {
    pub success: bool,
    pub password: Option<String>,
    pub error: Option<String>,
}

/// Ghost image of a [`KeychainGetResult`].
pub struct KeychainGetView {
    pub success: bool,
    pub password: Option<Seq<char>>,
    pub error: Option<Seq<char>>,
}

impl View for KeychainGetResult {
    type V = KeychainGetView;

    open spec fn view(&self) -> KeychainGetView {
        KeychainGetView {
            success: self.success,
            password: match self.password {
                Some(ref p) => Some(p@),
                None => None,
            },
            error: match self.error {
                Some(ref e) => Some(e@),
                None => None,
            },
        }
    }
}

/// Outcome of a proxied outbound HTTP request.
pub struct HttpResponse {
    pub success: bool,
    pub data: Option<String>,
    pub error: Option<String>,
    pub status: u16,
}

/// Ghost image of an [`HttpResponse`].
pub struct HttpResponseView {
    pub success: bool,
    pub data: Option<Seq<char>>,
    pub error: Option<Seq<char>>,
    pub status: u16,
}

impl View for HttpResponse {
    type V = HttpResponseView;

    open spec fn view(&self) -> HttpResponseView {
        HttpResponseView {
            success: self.success,
            data: match self.data {
                Some(ref d) => Some(d@),
                None => None,
            },
            error: match self.error {
                Some(ref e) => Some(e@),
                None => None,
            },
            status: self.status,
        }
    }
}

/// Whether `pat` occurs contiguously anywhere in `s`.
pub open spec fn spec_contains(s: Seq<char>, pat: Seq<char>) -> bool {
    exists|i: int|
        0 <= i && i + pat.len() <= s.len() && #[trigger] s.subrange(i, i + pat.len()) == pat
}

fn contains_chars(s: &Vec<char>, pat: &Vec<char>) -> (r: bool)
    ensures
        r == spec_contains(s@, pat@),
{
    if pat.len() > s.len() {
        proof {
            if spec_contains(s@, pat@) {
                let i = choose|i: int|
                    0 <= i && i + pat@.len() <= s@.len() && #[trigger] s@.subrange(
                        i,
                        i + pat@.len(),
                    ) == pat@;
                assert(false);
            }
        }
        return false;
    }
    if pat.len() == 0 {
        proof {
            assert(s@.subrange(0, 0 + pat@.len() as int) =~= pat@);
        }
        return true;
    }
    let mut i: usize = 0;
    while i <= s.len() - pat.len()
        invariant
            0 < pat@.len() <= s@.len(),
            i <= s@.len() - pat@.len() + 1,
            forall|j: int| 0 <= j < i ==> #[trigger] s@.subrange(j, j + pat@.len()) != pat@,
        decreases s@.len() - pat@.len() + 1 - i,
    {
        let mut k: usize = 0;
        let mut hit = true;
        while k < pat.len()
            invariant
                pat@.len() <= s@.len(),
                s@.len() <= usize::MAX,
                i + pat@.len() <= s@.len(),
                k <= pat@.len(),
                hit ==> forall|m: int| 0 <= m < k ==> s@[i + m] == pat@[m],
                !hit ==> s@.subrange(i as int, i + pat@.len()) != pat@,
            decreases pat@.len() - k,
        {
            if s[i + k] != pat[k] {
                proof {
                    assert(s@.subrange(i as int, i + pat@.len())[k as int] == s@[i + k]);
                }
                hit = false;
                k = pat.len();
            } else {
                k = k + 1;
            }
        }
        if hit {
            proof {
                assert(s@.subrange(i as int, i + pat@.len()) =~= pat@);
            }
            return true;
        }
        i = i + 1;
    }
    false
}

/// Whether text contains `pat` as a substring.
pub fn str_contains(s: &str, pat: &str) -> (r: bool)
    ensures
        r == spec_contains(s@, pat@),
{
    let sc = to_char_vec(s);
    let pc = to_char_vec(pat);
    contains_chars(&sc, &pc)
}

/// Whether a keychain error message means that no credential is stored:
/// it mentions `not found` or the platform's item-not-found code.
pub fn is_not_found_error(msg: &str) -> (r: bool)
    ensures
        r == (spec_contains(msg@, "not found"@) || spec_contains(msg@, "-25300"@)),
{
    str_contains(msg, "not found") || str_contains(msg, "-25300")
}

fn concat_msg(prefix: &str, rest: &str) -> (r: String)
    ensures
        r@ == prefix@ + rest@,
{
    let mut out = String::from_str(prefix);
    out.append(rest);
    out
}

/// Outcome of an availability check that found out whether the platform
/// prompt exists: the check itself always succeeds, and the fixed message
/// explains an unavailable prompt.
pub fn availability_result(available: bool, unavailable_msg: &str) -> (r: BiometricResult)
    ensures
        r@.success == true,
        r@.available == available,
        r@.error == (if available {
            None::<Seq<char>>
        } else {
            Some(unavailable_msg@)
        }),
{
    BiometricResult {
        success: true,
        available,
        error: if available {
            None
        } else {
            Some(String::from_str(unavailable_msg))
        },
    }
}

/// Classify what the platform authentication prompt printed: `success`
/// authenticates; `unavailable` means no prompt exists; anything else
/// fails with the diagnostic text, preferring what stderr said, then the
/// fixed cancelled message for a plain failure, then the verbatim output.
pub fn auth_outcome(result: &str, stderr: &str) -> (r: BiometricResult)
    ensures
        result@ == "success"@ ==> r@ == (BiometricView {
            success: true,
            available: true,
            error: None,
        }),
        result@ == "unavailable"@ && result@ != "success"@ ==> r@ == (BiometricView {
            success: false,
            available: false,
            error: Some("Touch ID not available"@),
        }),
        result@ != "success"@ && result@ != "unavailable"@ ==> r@ == (BiometricView {
            success: false,
            available: true,
            error: Some(
                if stderr@.len() > 0 {
                    "Touch ID error: "@ + stderr@
                } else if result@ == "failed"@ {
                    "Touch ID cancelled or failed"@
                } else {
                    "Touch ID returned: "@ + result@
                },
            ),
        }),
{
    if crate::text::str_eq(result, "success") {
        BiometricResult { success: true, available: true, error: None }
    } else if crate::text::str_eq(result, "unavailable") {
        BiometricResult {
            success: false,
            available: false,
            error: Some(String::from_str("Touch ID not available")),
        }
    } else {
        let msg = if stderr.unicode_len() > 0 {
            concat_msg("Touch ID error: ", stderr)
        } else if crate::text::str_eq(result, "failed") {
            String::from_str("Touch ID cancelled or failed")
        } else {
            concat_msg("Touch ID returned: ", result)
        };
        BiometricResult { success: false, available: true, error: Some(msg) }
    }
}

/// Outcome of storing the credential: success when the platform raised no
/// error, otherwise the error text behind the fixed prefix.
pub fn keychain_save_outcome(err: Option<&str>) -> (r: KeychainResult)
    ensures
        (match err {
            None => r@ == (KeychainView { success: true, error: None }),
            Some(e) => r@ == (KeychainView {
                success: false,
                error: Some("Failed to save: "@ + e@),
            }),
        }),
{
    match err {
        None => KeychainResult { success: true, error: None },
        Some(e) => KeychainResult {
            success: false,
            error: Some(concat_msg("Failed to save: ", e)),
        },
    }
}

/// Outcome of deleting the credential: deleting what is not stored is
/// itself success; any other platform error is reported behind the fixed
/// prefix.
pub fn keychain_delete_outcome(err: Option<&str>) -> (r: KeychainResult)
    ensures
        (match err {
            None => r@ == (KeychainView { success: true, error: None }),
            Some(e) => {
                if spec_contains(e@, "not found"@) || spec_contains(e@, "-25300"@) {
                    r@ == (KeychainView { success: true, error: None })
                } else {
                    r@ == (KeychainView {
                        success: false,
                        error: Some("Failed to delete: "@ + e@),
                    })
                }
            },
        }),
{
    match err {
        None => KeychainResult { success: true, error: None },
        Some(e) => {
            if is_not_found_error(e) {
                KeychainResult { success: true, error: None }
            } else {
                KeychainResult {
                    success: false,
                    error: Some(concat_msg("Failed to delete: ", e)),
                }
            }
        },
    }
}

/// Outcome of a load that found and decoded the credential.
pub fn keychain_load_success(password: String) -> (r: KeychainGetResult)
    ensures
        r@ == (KeychainGetView {
            success: true,
            password: Some(password@),
            error: None,
        }),
{
    KeychainGetResult { success: true, password: Some(password), error: None }
}

/// Outcome of a load whose stored bytes were not valid text; the decoder's
/// message follows the fixed prefix.
pub fn keychain_load_bad_utf8(msg: &str) -> (r: KeychainGetResult)
    ensures
        r@ == (KeychainGetView {
            success: false,
            password: None,
            error: Some("Invalid UTF-8: "@ + msg@),
        }),
{
    KeychainGetResult {
        success: false,
        password: None,
        error: Some(concat_msg("Invalid UTF-8: ", msg)),
    }
}

/// Outcome of a load the platform refused: a missing credential is
/// reported with the fixed message, anything else behind the fixed
/// prefix.
pub fn keychain_load_failure(err: &str) -> (r: KeychainGetResult)
    ensures
        (if spec_contains(err@, "not found"@) || spec_contains(err@, "-25300"@) {
            r@ == (KeychainGetView {
                success: false,
                password: None,
                error: Some("No password stored"@),
            })
        } else {
            r@ == (KeychainGetView {
                success: false,
                password: None,
                error: Some("Failed to load: "@ + err@),
            })
        }),
{
    if is_not_found_error(err) {
        KeychainGetResult {
            success: false,
            password: None,
            error: Some(String::from_str("No password stored")),
        }
    } else {
        KeychainGetResult {
            success: false,
            password: None,
            error: Some(concat_msg("Failed to load: ", err)),
        }
    }
}

/// What an attempted outbound request produced, as plain values.
pub enum HttpFetch {
    /// A response arrived and its body was read.
    Body(u16, String),
    /// A response arrived but reading its body failed with this message.
    ReadFailed(u16, String),
    /// The request itself failed with this message.
    RequestFailed(String),
}

/// Classify a proxied request's outcome: a read body succeeds exactly for
/// a status in the 200 range; a body that could not be read or a request
/// that failed is reported with its message behind the fixed prefix, the
/// latter with status zero.
pub fn http_outcome(fetch: HttpFetch) -> (r: HttpResponse)
    ensures
        (match fetch {
            HttpFetch::Body(status, text) => r@ == (HttpResponseView {
                success: 200 <= status < 300,
                data: Some(text@),
                error: None,
                status: status,
            }),
            HttpFetch::ReadFailed(status, msg) => r@ == (HttpResponseView {
                success: false,
                data: None,
                error: Some("Failed to read response: "@ + msg@),
                status: status,
            }),
            HttpFetch::RequestFailed(msg) => r@ == (HttpResponseView {
                success: false,
                data: None,
                error: Some("Request failed: "@ + msg@),
                status: 0,
            }),
        }),
{
    match fetch {
        HttpFetch::Body(status, text) => HttpResponse {
            success: 200 <= status && status < 300,
            data: Some(text),
            error: None,
            status,
        },
        HttpFetch::ReadFailed(status, msg) => HttpResponse {
            success: false,
            data: None,
            error: Some(concat_msg("Failed to read response: ", msg.as_str())),
            status,
        },
        HttpFetch::RequestFailed(msg) => HttpResponse {
            success: false,
            data: None,
            error: Some(concat_msg("Request failed: ", msg.as_str())),
            status: 0,
        },
    }
}

} // verus!
