//! Turning an incoming request into the image it carries.

use vstd::prelude::*;
use crate::error::ClassifyError;

verus! {

#[verifier::external_type_specification]
#[verifier::external_body]
pub struct ExDecodeError(base64::DecodeError);

/// The bytes that standard base64 (with padding) denotes by `s`, or `None`
/// where `s` is not such text.
pub uninterp spec fn standard_base64_decoded(s: Seq<char>) -> Option<Seq<u8>>;

/// Relies on base64::decode (the STANDARD engine): it returns the decoded
/// bytes, or an error where the text is not valid base64.
#[verifier::external_body]
fn base64_decode(s: &str) -> (r: Result<Vec<u8>, base64::DecodeError>)
    ensures
        r is Ok <==> standard_base64_decoded(s@) is Some,
        r is Ok ==> r->Ok_0@ == standard_base64_decoded(s@)->Some_0,
{
    #[allow(deprecated)]
    base64::decode(s)
}

/// Decodes the base64 text of a JSON request into image bytes.
pub fn decode_image(payload: &str) -> (r: Result<Vec<u8>, ClassifyError>)
    ensures
        standard_base64_decoded(payload@) is Some ==> r is Ok && r->Ok_0@
            == standard_base64_decoded(payload@)->Some_0,
        standard_base64_decoded(payload@) is None ==> r == Err::<Vec<u8>, ClassifyError>(
            ClassifyError::Decode,
        ),
{
    match base64_decode(payload) {
        Ok(bytes) => Ok(bytes),
        Err(_) => Err(ClassifyError::Decode),
    }
}

/// One field of a parsed multipart form: its name, and the path of the file
/// the form parser stored it in, where it was a file.
pub struct FormField {
    pub name: String,
    pub file_path: Option<String>,
}

/// The field is the image upload: a file field named `image`.
pub open spec fn is_image_field(f: FormField) -> bool {
    f.name@ == "image"@ && f.file_path is Some
}

/// Finds the path of the first file field named `image`.
pub fn find_image_field(fields: &Vec<FormField>) -> (r: Result<String, ClassifyError>)
    ensures
        (exists|i: int| 0 <= i < fields@.len() && is_image_field(#[trigger] fields@[i]))
            ==> r is Ok,
        r is Ok ==> exists|i: int|
            0 <= i < fields@.len() && is_image_field(#[trigger] fields@[i])
                && r->Ok_0@ == fields@[i].file_path->Some_0@
                && forall|j: int| 0 <= j < i ==> !is_image_field(#[trigger] fields@[j]),
        r is Err ==> r == Err::<String, ClassifyError>(ClassifyError::MissingField),
{
    let image = String::from_str("image");
    let mut i: usize = 0;
    while i < fields.len()
        invariant
            image@ == "image"@,
            i <= fields@.len(),
            forall|j: int| 0 <= j < i ==> !is_image_field(#[trigger] fields@[j]),
        decreases fields@.len() - i,
    {
        let f = &fields[i];
        if f.name == image {
            match &f.file_path {
                Some(p) => {
                    return Ok(p.clone());
                },
                None => {},
            }
        }
        i = i + 1;
    }
    Err(ClassifyError::MissingField)
}

/// An incoming image request, in one of the two accepted encodings.
pub enum ImageRequest {
    /// A JSON body whose `image` field holds base64 text.
    Base64 { payload: String },
    /// A multipart form, already parsed into its fields.
    Multipart { fields: Vec<FormField> },
}

} // verus!
