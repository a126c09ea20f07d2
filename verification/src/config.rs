use vstd::prelude::*;

use crate::cli::{spec_format_name, Cli, CliModel, SupportedImageFormat};
use crate::errors::AppError;
use crate::text::view_opt_string;
use crate::uploaders::{
    spec_requires_credential, spec_service_name, spec_supports, UploadServiceIdentifier,
};

verus! {

/// The agent string sent with every request.
pub open spec fn spec_user_agent() -> Seq<char> {
    "rich_thumbnail_uploader/0.1.0"@
}

/// The validated, immutable bundle for one run: the chosen backend and
/// encoding, the square target dimensions, the resolved credential, and
/// the agent string. Built once by `Config::new`; both checks of the
/// Configuration Validator hold of every value that leaves it.
#[derive(Debug)]
pub struct Config {
    pub service: UploadServiceIdentifier,
    pub image_format: SupportedImageFormat,
    pub image_dimensions: (u32, u32),
    pub client_id: Option<String>,
    pub user_agent: &'static str,
}

/// Credential resolution: an explicit override always wins; ServiceA
/// falls back to the build-time default; ServiceB knows no default.
pub open spec fn spec_resolve_credential(
    service: UploadServiceIdentifier,
    uid: Option<Seq<char>>,
    env_default: Option<Seq<char>>,
) -> Option<Seq<char>> {
    match service {
        UploadServiceIdentifier::Imgur => if uid is Some {
            uid
        } else {
            env_default
        },
        UploadServiceIdentifier::Catbox => uid,
    }
}

/// The message of the missing-credential rejection, naming the service.
pub open spec fn spec_missing_credential_msg(s: UploadServiceIdentifier) -> Seq<char> {
    spec_service_name(s) + " requires a client id"@
}

/// The message of the unsupported-encoding rejection, naming both the
/// encoding and the service.
pub open spec fn spec_bad_format_msg(
    f: SupportedImageFormat,
    s: UploadServiceIdentifier,
) -> Seq<char> {
    spec_format_name(f) + " is not a valid format for "@ + spec_service_name(s)
}

/// What the Configuration Validator says to a (service, encoding,
/// resolved credential) triple: nothing when the triple is acceptable,
/// else the exact message of the rejection. The credential check comes
/// first.
pub open spec fn spec_validation_error(
    service: UploadServiceIdentifier,
    format: SupportedImageFormat,
    cred: Option<Seq<char>>,
) -> Option<Seq<char>> {
    if spec_requires_credential(service) && cred is None {
        Some(spec_missing_credential_msg(service))
    } else if !spec_supports(service, format) {
        Some(spec_bad_format_msg(format, service))
    } else {
        None
    }
}

/// The complete outcome of building a configuration from command-line
/// options and an optional build-time default credential.
pub open spec fn spec_new_result(
    cli: CliModel,
    env_default: Option<Seq<char>>,
    r: Result<Config, AppError>,
) -> bool {
    let cred = spec_resolve_credential(cli.service, cli.uid, env_default);
    match spec_validation_error(cli.service, cli.format, cred) {
        Some(msg) => r matches Err(e) && e matches AppError::Config(m) && m@ == msg,
        None => r matches Ok(c) && c.service == cli.service && c.image_format == cli.format
            && c.image_dimensions == (cli.dims, cli.dims) && view_opt_string(c.client_id) == cred
            && c.user_agent@ == spec_user_agent(),
    }
}

fn contains_format(v: &Vec<SupportedImageFormat>, f: SupportedImageFormat) -> (r: bool)
    ensures
        r == v@.contains(f),
{
    let mut i: usize = 0;
    while i < v.len()
        invariant
            i <= v.len(),
            forall|j: int| 0 <= j < i ==> v@[j] != f,
        decreases v.len() - i,
    {
        if v[i] == f {
            return true;
        }
        i += 1;
    }
    false
}

impl Config {
    /// Builds and validates a configuration with no build-time default
    /// credential. Callers holding such a default use
    /// `Config::new_with_default`.
    pub fn new(options: &Cli) -> (r: Result<Config, AppError>)
        ensures
            spec_new_result(options@, None, r),
    {
        Config::new_with_default(options, None)
    }

    /// The Configuration Validator: resolves the credential (an explicit
    /// override first, then the given build-time default), checks it and
    /// the chosen encoding against the capability registry, and returns
    /// the validated bundle — or the exact rejection, before any file or
    /// network work.
    pub fn new_with_default(options: &Cli, default_client_id: Option<String>) -> (r: Result<
        Config,
        AppError,
    >)
        ensures
            spec_new_result(options@, view_opt_string(default_client_id), r),
    {
        let user_id: Option<String> = match &options.uid {
            Some(u) => Some(u.clone()),
            None => None,
        };
        let client_id: Option<String> = match options.service {
            UploadServiceIdentifier::Imgur => match user_id {
                Some(u) => Some(u),
                None => default_client_id,
            },
            UploadServiceIdentifier::Catbox => user_id,
        };
        let config = Config {
            service: options.service,
            client_id,
            user_agent: "rich_thumbnail_uploader/0.1.0",
            image_format: options.format,
            image_dimensions: (options.dims, options.dims),
        };
        Config::valid(config)
    }

    /// The two checks themselves: a required credential must be present,
    /// and the encoding must be in the service's capability set.
    fn valid(config: Config) -> (r: Result<Config, AppError>)
        ensures
            match spec_validation_error(
                config.service,
                config.image_format,
                view_opt_string(config.client_id),
            ) {
                Some(msg) => r matches Err(e) && e matches AppError::Config(m) && m@ == msg,
                None => r matches Ok(c) && c == config,
            },
    {
        let client_id_check = match config.service {
            UploadServiceIdentifier::Imgur => config.client_id.is_some(),
            UploadServiceIdentifier::Catbox => true,
        };
        if !client_id_check {
            let msg = config.service.to_string().concat(" requires a client id");
            return Err(AppError::Config(msg));
        }
        let valid_format = contains_format(&config.service.formats(), config.image_format);
        if !valid_format {
            let service_name = config.service.to_string();
            let msg = String::from_str(config.image_format.to_string()).concat(
                " is not a valid format for ",
            ).concat(service_name.as_str());
            return Err(AppError::Config(msg));
        }
        Ok(config)
    }
}

/// For every (service, encoding) pair and every resolved credential, the
/// Configuration Validator accepts exactly the pairs in the capability
/// registry whose credential requirement is met; a pair outside the
/// registry is rejected with the Config message naming both the encoding
/// and the service.
pub proof fn lemma_registry_governs_validation(
    service: UploadServiceIdentifier,
    format: SupportedImageFormat,
    cred: Option<Seq<char>>,
)
    ensures
        spec_validation_error(service, format, cred) is None <==> (spec_supports(service, format)
            && (spec_requires_credential(service) ==> cred is Some)),
        !spec_supports(service, format) && (spec_requires_credential(service) ==> cred is Some)
            ==> spec_validation_error(service, format, cred) == Some(
            spec_bad_format_msg(format, service),
        ),
{
}

/// ServiceA resolves no credential when neither an override nor a
/// build-time default is supplied, and validation then always rejects
/// with the missing-credential message; either source alone resolves a
/// credential, and with a registry-supported encoding validation then
/// accepts.
pub proof fn lemma_imgur_credential_resolution(
    format: SupportedImageFormat,
    uid: Option<Seq<char>>,
    env_default: Option<Seq<char>>,
)
    ensures
        spec_resolve_credential(UploadServiceIdentifier::Imgur, None, None) is None,
        spec_validation_error(UploadServiceIdentifier::Imgur, format, None) == Some(
            spec_missing_credential_msg(UploadServiceIdentifier::Imgur),
        ),
        uid is Some || env_default is Some ==> spec_resolve_credential(
            UploadServiceIdentifier::Imgur,
            uid,
            env_default,
        ) is Some,
        (uid is Some || env_default is Some) && spec_supports(
            UploadServiceIdentifier::Imgur,
            format,
        ) ==> spec_validation_error(
            UploadServiceIdentifier::Imgur,
            format,
            spec_resolve_credential(UploadServiceIdentifier::Imgur, uid, env_default),
        ) is None,
{
}

} // verus!
