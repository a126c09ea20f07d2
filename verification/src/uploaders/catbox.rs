use vstd::prelude::*;

use crate::cli::SupportedImageFormat;
use crate::errors::AppError;
use crate::image_processor::ProcessedImage;
use crate::text::{spec_is_https_url, starts_with_https};
use crate::uploaders::{
    spec_formats, spec_upload_request, UploadRequest, UploadService, UploadServiceIdentifier,
};

verus! {

/// The ServiceB backend: works without a credential, takes a multipart
/// form with a `reqtype` marker, and answers with the bare URL as text.
pub struct CatboxUploader;

impl UploadService for CatboxUploader {
    open spec fn spec_identifier() -> UploadServiceIdentifier {
        UploadServiceIdentifier::Catbox
    }

    fn identifier() -> (r: UploadServiceIdentifier) {
        UploadServiceIdentifier::Catbox
    }

    fn formats() -> (r: Vec<SupportedImageFormat>) {
        let mut v: Vec<SupportedImageFormat> = Vec::new();
        v.push(SupportedImageFormat::Png);
        v.push(SupportedImageFormat::Webp);
        proof {
            assert(v@ =~= spec_formats(UploadServiceIdentifier::Catbox));
        }
        v
    }

    fn build_request(
        filename: String,
        image: ProcessedImage,
        client_id: String,
        user_agent: String,
    ) -> (r: UploadRequest) {
        let ghost gfilename = filename@;
        let ghost gdata = image.data@;
        let ghost gformat = image.format;
        let ghost gcid = client_id@;
        let ghost gua = user_agent@;
        let mut text_fields: Vec<(String, String)> = Vec::new();
        text_fields.push((String::from_str("reqtype"), String::from_str("fileupload")));
        text_fields.push((String::from_str("userhash"), client_id));
        let mime = image.format.to_mime_type();
        let r = UploadRequest {
            url: "https://catbox.moe/user/api.php",
            auth_header: None,
            text_fields,
            file_field_name: "fileToUpload",
            filename,
            mime_type: mime,
            user_agent,
            data: image.data,
        };
        proof {
            let m = spec_upload_request(
                UploadServiceIdentifier::Catbox,
                gfilename,
                gdata,
                gformat,
                gcid,
                gua,
            );
            assert(r@.text_fields =~= m.text_fields);
            assert(r@ =~= m);
        }
        r
    }
}

impl CatboxUploader {
    /// Reads ServiceB's answer: on a successful status the body must
    /// itself be a secure URL; an empty or otherwise malformed body is an
    /// upload failure, never a success.
    pub fn interpret_response(status_ok: bool, body: String) -> (r: Result<String, AppError>)
        ensures
            r is Ok <==> (status_ok && spec_is_https_url(body@)),
            match r {
                Ok(url) => url@ == body@,
                Err(e) => if !status_ok {
                    e matches AppError::Upload(m) && m@ == "Catbox API error: "@ + body@
                } else {
                    e matches AppError::Upload(m) && m@ == "Catbox returned invalid URL"@
                },
            },
    {
        if !status_ok {
            let msg = String::from_str("Catbox API error: ").concat(body.as_str());
            return Err(AppError::Upload(msg));
        }
        if !starts_with_https(body.as_str()) {
            return Err(AppError::Upload(String::from_str("Catbox returned invalid URL")));
        }
        Ok(body)
    }
}

} // verus!
