use vstd::prelude::*;

verus! {

/// The body ServiceA answers with: a nested payload and a success flag.
pub struct ImgurResponse {
    pub data: ImgurData,
    pub success: bool,
}

/// The payload inside a ServiceA response: the public link of the upload.
pub struct ImgurData {
    pub link: String,
}

} // verus!
