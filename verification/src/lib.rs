pub mod cli;
pub mod config;
pub mod errors;
pub mod image_processor;
pub mod models;
pub mod text;
pub mod uploaders;

use vstd::prelude::*;

use crate::cli::Cli;
use crate::config::{spec_resolve_credential, spec_user_agent, spec_validation_error, Config};
use crate::errors::AppError;
use crate::image_processor::{
    create_thumbnail, spec_thumb_bytes, spec_thumb_error_msg, ImageProcessingOptions,
};
use crate::text::{spec_opt_or_empty, view_opt_string};
use crate::uploaders::{prepare_upload, spec_filename, spec_upload_request, UploadRequest};

verus! {

/// What one run owes its caller: a configuration rejection carries the
/// validator's exact message and comes before any image work; an image
/// error, with the pipeline's fixed message, comes exactly when the
/// pipeline result does not exist for the given bytes, edge and encoding;
/// otherwise the result is the chosen backend's request, carrying those
/// pipeline bytes, the resolved credential, the agent string and a
/// timestamp-derived filename in the chosen encoding.
pub open spec fn spec_prepare_run_result(
    cli: cli::CliModel,
    env_default: Option<Seq<char>>,
    bytes: Seq<u8>,
    r: Result<UploadRequest, AppError>,
) -> bool {
    let cred = spec_resolve_credential(cli.service, cli.uid, env_default);
    let cid = spec_opt_or_empty(cred);
    match spec_validation_error(cli.service, cli.format, cred) {
        Some(msg) => r matches Err(e) && e matches AppError::Config(m) && m@ == msg,
        None => match spec_thumb_bytes(bytes, cli.dims, cli.format) {
            None => r matches Err(e) && e matches AppError::Image(m) && m@ == spec_thumb_error_msg(
                bytes,
                cli.dims,
                cli.format,
            ),
            Some(tb) => r matches Ok(req) && (exists|ts: u64|
                req@ == #[trigger] spec_upload_request(
                    cli.service,
                    spec_filename(ts as nat, cli.format),
                    tb,
                    cli.format,
                    cid,
                    spec_user_agent(),
                )),
        },
    }
}

proof fn lemma_prepare_run_ok(
    cli: cli::CliModel,
    env_default: Option<Seq<char>>,
    bytes: Seq<u8>,
    req: UploadRequest,
)
    requires
        spec_validation_error(
            cli.service,
            cli.format,
            spec_resolve_credential(cli.service, cli.uid, env_default),
        ) is None,
        spec_thumb_bytes(bytes, cli.dims, cli.format) is Some,
        exists|ts: u64|
            req@ == #[trigger] spec_upload_request(
                cli.service,
                spec_filename(ts as nat, cli.format),
                spec_thumb_bytes(bytes, cli.dims, cli.format).unwrap(),
                cli.format,
                spec_opt_or_empty(spec_resolve_credential(cli.service, cli.uid, env_default)),
                spec_user_agent(),
            ),
    ensures
        spec_prepare_run_result(cli, env_default, bytes, Ok(req)),
{
    let tb = spec_thumb_bytes(bytes, cli.dims, cli.format).unwrap();
    let cid = spec_opt_or_empty(spec_resolve_credential(cli.service, cli.uid, env_default));
    let ts = choose|ts: u64|
        req@ == #[trigger] spec_upload_request(
            cli.service,
            spec_filename(ts as nat, cli.format),
            tb,
            cli.format,
            cid,
            spec_user_agent(),
        );
    assert(req@ == spec_upload_request(
        cli.service,
        spec_filename(ts as nat, cli.format),
        tb,
        cli.format,
        cid,
        spec_user_agent(),
    ));
}

/// The front half of one run: validate the options — failing fast on a
/// bad configuration before the image bytes are even looked at — produce
/// the thumbnail, and build the one request the chosen backend needs.
/// Sending the request and reading the answer are the transport's part.
pub fn prepare_run(options: &Cli, default_client_id: Option<String>, file_bytes: &Vec<u8>) -> (r:
    Result<UploadRequest, AppError>)
    requires
        1 <= options.dims,
    ensures
        spec_prepare_run_result(options@, view_opt_string(default_client_id), file_bytes@, r),
{
    let config = match Config::new_with_default(options, default_client_id) {
        Err(e) => {
            return Err(e);
        },
        Ok(c) => c,
    };
    let opts = ImageProcessingOptions {
        size: config.image_dimensions.0,
        format: config.image_format,
    };
    let thumbnail = match create_thumbnail(file_bytes, &opts) {
        Err(e) => {
            return Err(e);
        },
        Ok(t) => t,
    };
    let ghost gdata = thumbnail.data@;
    let ghost gservice = config.service;
    let ghost gformat = thumbnail.format;
    let client_id = match config.client_id {
        Some(c) => c,
        None => String::new(),
    };
    let ghost gcid = client_id@;
    let user_agent = String::from_str(config.user_agent);
    let ghost gua = user_agent@;
    let request = prepare_upload(config.service, thumbnail, client_id, user_agent);
    proof {
        let cred = spec_resolve_credential(
            options@.service,
            options@.uid,
            view_opt_string(default_client_id),
        );
        assert(gua == spec_user_agent());
        assert(gcid == spec_opt_or_empty(cred));
        assert(spec_thumb_bytes(file_bytes@, options@.dims, options@.format) == Some(gdata));
        let ts = choose|ts: u64|
            request@ == spec_upload_request(
                gservice,
                spec_filename(ts as nat, gformat),
                gdata,
                gformat,
                gcid,
                gua,
            );
        assert(request@ == #[trigger] spec_upload_request(
            options@.service,
            spec_filename(ts as nat, options@.format),
            spec_thumb_bytes(file_bytes@, options@.dims, options@.format).unwrap(),
            options@.format,
            spec_opt_or_empty(cred),
            spec_user_agent(),
        ));
        lemma_prepare_run_ok(
            options@,
            view_opt_string(default_client_id),
            file_bytes@,
            request,
        );
    }
    Ok(request)
}

} // verus!
