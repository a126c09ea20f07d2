use vstd::prelude::*;

use crate::cli::SupportedImageFormat;
use crate::errors::AppError;
use crate::image_processor::ProcessedImage;
use crate::models::imgur::ImgurResponse;
use crate::uploaders::{
    spec_formats, spec_upload_request, UploadRequest, UploadService, UploadServiceIdentifier,
};

verus! {

/// The ServiceA backend: needs a client identifier, sends it in a
/// `Client-ID` authorization header, and answers with a JSON body holding
/// a success flag and the link.
pub struct ImgurUploader;

impl UploadService for ImgurUploader {
    open spec fn spec_identifier() -> UploadServiceIdentifier {
        UploadServiceIdentifier::Imgur
    }

    fn identifier() -> (r: UploadServiceIdentifier) {
        UploadServiceIdentifier::Imgur
    }

    fn formats() -> (r: Vec<SupportedImageFormat>) {
        let mut v: Vec<SupportedImageFormat> = Vec::new();
        v.push(SupportedImageFormat::Png);
        proof {
            assert(v@ =~= spec_formats(UploadServiceIdentifier::Imgur));
        }
        v
    }

    fn build_request(
        filename: String,
        image: ProcessedImage,
        client_id: String,
        user_agent: String,
    ) -> (r: UploadRequest) {
        let ghost gfilename = filename@;
        let ghost gdata = image.data@;
        let ghost gformat = image.format;
        let ghost gcid = client_id@;
        let ghost gua = user_agent@;
        let auth = String::from_str("Client-ID ").concat(client_id.as_str());
        let mime = image.format.to_mime_type();
        let r = UploadRequest {
            url: "https://api.imgur.com/3/image",
            auth_header: Some(auth),
            text_fields: Vec::new(),
            file_field_name: "image",
            filename,
            mime_type: mime,
            user_agent,
            data: image.data,
        };
        proof {
            let m = spec_upload_request(
                UploadServiceIdentifier::Imgur,
                gfilename,
                gdata,
                gformat,
                gcid,
                gua,
            );
            assert(r@.text_fields =~= m.text_fields);
            assert(r@ =~= m);
        }
        r
    }
}

impl ImgurUploader {
    /// Reads ServiceA's answer: a successful status whose parsed body has
    /// `success == true` yields the contained link; a failed status, an
    /// unparsable body, and a false success flag each surface as errors
    /// carrying the backend's own text.
    pub fn interpret_response(
        status_ok: bool,
        body: String,
        parsed: Result<ImgurResponse, String>,
    ) -> (r: Result<String, AppError>)
        ensures
            r is Ok <==> ((parsed matches Ok(p) && p.success) && status_ok),
            match r {
                Ok(url) => (parsed matches Ok(p) && p.success && url@ == p.data.link@)
                    && status_ok,
                Err(e) => if !status_ok {
                    e matches AppError::Upload(m) && m@ == "Imgur API error: "@ + body@
                } else {
                    match parsed {
                        Err(pe) => e matches AppError::Http(m) && m@ == pe@,
                        Ok(p) => (e matches AppError::Upload(m) && m@
                            == "Imgur reported upload failure: "@ + body@) && !p.success,
                    }
                },
            },
    {
        if !status_ok {
            let msg = String::from_str("Imgur API error: ").concat(body.as_str());
            return Err(AppError::Upload(msg));
        }
        match parsed {
            Err(pe) => Err(AppError::Http(pe)),
            Ok(resp) => {
                if !resp.success {
                    let msg = String::from_str("Imgur reported upload failure: ").concat(
                        body.as_str(),
                    );
                    Err(AppError::Upload(msg))
                } else {
                    Ok(resp.data.link)
                }
            },
        }
    }
}

} // verus!
