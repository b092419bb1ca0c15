//! Building the avatar data URL: the one pure computation of the profile
//! commands, the base64 payload of a downloaded image behind the fixed
//! `data:` prefix.

use vstd::prelude::*;
use vstd::string::StringExecFns;

verus! {

/// The characters that base64's standard engine produces for `bytes`.
pub uninterp spec fn base64_of(bytes: Seq<u8>) -> Seq<char>;

/// Relies on base64's `STANDARD` engine `encode`: arbitrary octets in,
/// standard-alphabet base64 of them out, a function of the bytes alone. The
/// input must be short enough for the encoded length to fit in `usize`
/// (`encode` panics otherwise).
#[verifier::external_body]
fn encode_base64(bytes: &Vec<u8>) -> (s: String)
    requires
        bytes@.len() / 3 < usize::MAX / 4,
    ensures
        s@ == base64_of(bytes@),
{
    base64::Engine::encode(&base64::engine::general_purpose::STANDARD, bytes.as_slice())
}

/// The data URL of a PNG avatar image.
pub open spec fn avatar_data_url_spec(image: Seq<u8>) -> Seq<char> {
    "data:image/png;base64,"@ + base64_of(image)
}

/// Build the data URL that a profile edit takes for a downloaded PNG avatar
/// image. The image must be short enough for its encoding to fit in `usize`,
/// which any downloadable attachment is.
pub fn avatar_data_url(image: &Vec<u8>) -> (url: String)
    requires
        image@.len() / 3 < usize::MAX / 4,
    ensures
        url@ == avatar_data_url_spec(image@),
{
    let mut url = "data:image/png;base64,".to_owned();
    let payload = encode_base64(image);
    url.append(payload.as_str());
    url
}

} // verus!
