pub mod catbox;
pub mod imgur;

use vstd::prelude::*;

use crate::cli::{spec_format_name, spec_mime_type, SupportedImageFormat};
use crate::image_processor::ProcessedImage;
use crate::text::{spec_dec_digits, u64_to_string, view_opt_string};

verus! {

/// Closed enumeration of the hosting backends this crate can talk to.
#[derive(Copy, Clone, PartialEq, Eq, Structural, Debug)]
pub enum UploadServiceIdentifier {
    Imgur,
    Catbox,
}

/// The canonical lower-case name of a backend.
pub open spec fn spec_service_name(s: UploadServiceIdentifier) -> Seq<char> {
    match s {
        UploadServiceIdentifier::Imgur => "imgur"@,
        UploadServiceIdentifier::Catbox => "catbox"@,
    }
}

/// The capability registry: the encodings each backend accepts. Static
/// data, never mutated, and non-empty for every backend.
pub open spec fn spec_formats(s: UploadServiceIdentifier) -> Seq<SupportedImageFormat> {
    match s {
        UploadServiceIdentifier::Imgur => seq![SupportedImageFormat::Png],
        UploadServiceIdentifier::Catbox => seq![
            SupportedImageFormat::Png,
            SupportedImageFormat::Webp,
        ],
    }
}

/// Membership in the capability registry.
pub open spec fn spec_supports(s: UploadServiceIdentifier, f: SupportedImageFormat) -> bool {
    spec_formats(s).contains(f)
}

/// Whether a backend refuses to work without a credential.
pub open spec fn spec_requires_credential(s: UploadServiceIdentifier) -> bool {
    s is Imgur
}

impl UploadServiceIdentifier {
    pub fn to_string(&self) -> (r: String)
        ensures
            r@ == spec_service_name(*self),
    {
        match self {
            UploadServiceIdentifier::Imgur => String::from_str("imgur"),
            UploadServiceIdentifier::Catbox => String::from_str("catbox"),
        }
    }

    /// The capability set of this backend, as declared by its uploader.
    pub fn formats(&self) -> (r: Vec<SupportedImageFormat>)
        ensures
            r@ == spec_formats(*self),
    {
        match self {
            UploadServiceIdentifier::Imgur => imgur::ImgurUploader::formats(),
            UploadServiceIdentifier::Catbox => catbox::CatboxUploader::formats(),
        }
    }
}

/// The mathematical shape of one backend request: endpoint, optional
/// authorization header value, plain form fields, and the single binary
/// part with its field name, file name and MIME type.
#[verifier::ext_equal]
pub ghost struct UploadRequestModel {
    pub url: Seq<char>,
    pub auth_header: Option<Seq<char>>,
    pub text_fields: Seq<(Seq<char>, Seq<char>)>,
    pub file_field_name: Seq<char>,
    pub filename: Seq<char>,
    pub mime_type: Seq<char>,
    pub user_agent: Seq<char>,
    pub data: Seq<u8>,
}

/// Everything a backend needs for one upload, as plain values. The
/// transport layer turns this into an HTTP POST without any decisions of
/// its own.
#[derive(Debug)]
pub struct UploadRequest {
    pub url: &'static str,
    pub auth_header: Option<String>,
    pub text_fields: Vec<(String, String)>,
    pub file_field_name: &'static str,
    pub filename: String,
    pub mime_type: &'static str,
    pub user_agent: String,
    pub data: Vec<u8>,
}

impl View for UploadRequest {
    type V = UploadRequestModel;

    open spec fn view(&self) -> UploadRequestModel {
        UploadRequestModel {
            url: self.url@,
            auth_header: view_opt_string(self.auth_header),
            text_fields: self.text_fields@.map_values(|p: (String, String)| (p.0@, p.1@)),
            file_field_name: self.file_field_name@,
            filename: self.filename@,
            mime_type: self.mime_type@,
            user_agent: self.user_agent@,
            data: self.data@,
        }
    }
}

/// The request each backend is owed for one upload: ServiceA posts to its
/// fixed endpoint with a `Client-ID` authorization header and the binary
/// part named `image`; ServiceB posts to its fixed endpoint with a
/// `reqtype` marker field, the credential as a `userhash` field, and the
/// binary part named `fileToUpload`.
pub open spec fn spec_upload_request(
    service: UploadServiceIdentifier,
    filename: Seq<char>,
    data: Seq<u8>,
    format: SupportedImageFormat,
    client_id: Seq<char>,
    user_agent: Seq<char>,
) -> UploadRequestModel {
    match service {
        UploadServiceIdentifier::Imgur => UploadRequestModel {
            url: "https://api.imgur.com/3/image"@,
            auth_header: Some("Client-ID "@ + client_id),
            text_fields: Seq::empty(),
            file_field_name: "image"@,
            filename: filename,
            mime_type: spec_mime_type(format),
            user_agent: user_agent,
            data: data,
        },
        UploadServiceIdentifier::Catbox => UploadRequestModel {
            url: "https://catbox.moe/user/api.php"@,
            auth_header: None,
            text_fields: seq![("reqtype"@, "fileupload"@), ("userhash"@, client_id)],
            file_field_name: "fileToUpload"@,
            filename: filename,
            mime_type: spec_mime_type(format),
            user_agent: user_agent,
            data: data,
        },
    }
}

/// The per-backend capability interface: each backend names itself,
/// declares the encodings it accepts, and builds the one request shape it
/// needs; the transport and the response reading stay outside.
pub trait UploadService {
    spec fn spec_identifier() -> UploadServiceIdentifier;

    /// Which backend this uploader implements.
    fn identifier() -> (r: UploadServiceIdentifier)
        ensures
            r == Self::spec_identifier(),
    ;

    /// The encodings this backend accepts.
    fn formats() -> (r: Vec<SupportedImageFormat>)
        ensures
            r@ == spec_formats(Self::spec_identifier()),
    ;

    /// The complete request this backend needs for one upload.
    fn build_request(
        filename: String,
        image: ProcessedImage,
        client_id: String,
        user_agent: String,
    ) -> (r: UploadRequest)
        ensures
            r@ == spec_upload_request(
                Self::spec_identifier(),
                filename@,
                image.data@,
                image.format,
                client_id@,
                user_agent@,
            ),
    ;
}

/// The synthesized name of an upload: a microsecond timestamp in decimal,
/// a dot, and the extension belonging to the encoding.
pub open spec fn spec_filename(ts: nat, f: SupportedImageFormat) -> Seq<char> {
    spec_dec_digits(ts) + "."@ + spec_format_name(f)
}

pub fn make_filename(timestamp_micros: u64, format: SupportedImageFormat) -> (r: String)
    ensures
        r@ == spec_filename(timestamp_micros as nat, format),
{
    let mut s = u64_to_string(timestamp_micros);
    s.append(".");
    s.append(format.to_string());
    proof {
        reveal_strlit(".");
    }
    s
}

/// Relies on std::time::SystemTime::now: the wall clock in microseconds
/// since the Unix epoch; nothing is promised of its value.
#[verifier::external_body]
fn now_micros() -> u64 {
    std::time::SystemTime::now().duration_since(std::time::UNIX_EPOCH).map(
        |d| d.as_micros() as u64,
    ).unwrap_or(0)
}

/// Synthesizes a fresh timestamp-derived filename and builds the request
/// for the backend the validated configuration chose. The single dispatch
/// point of the Upload Service Abstraction.
pub fn prepare_upload(
    service: UploadServiceIdentifier,
    image: ProcessedImage,
    client_id: String,
    user_agent: String,
) -> (r: UploadRequest)
    ensures
        exists|ts: u64|
            r@ == spec_upload_request(
                service,
                spec_filename(ts as nat, image.format),
                image.data@,
                image.format,
                client_id@,
                user_agent@,
            ),
{
    let ghost gformat = image.format;
    let ghost gdata = image.data@;
    let ghost gcid = client_id@;
    let ghost gua = user_agent@;
    let ts = now_micros();
    let filename = make_filename(ts, image.format);
    let r = match service {
        UploadServiceIdentifier::Imgur => imgur::ImgurUploader::build_request(
            filename,
            image,
            client_id,
            user_agent,
        ),
        UploadServiceIdentifier::Catbox => catbox::CatboxUploader::build_request(
            filename,
            image,
            client_id,
            user_agent,
        ),
    };
    proof {
        assert(r@ == spec_upload_request(
            service,
            spec_filename(ts as nat, gformat),
            gdata,
            gformat,
            gcid,
            gua,
        ));
    }
    r
}

} // verus!
