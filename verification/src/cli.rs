use vstd::prelude::*;

use crate::errors::AppError;
use crate::text::{spec_all_digits, spec_dec_val, str_eq, parse_u32, view_opt_string};
use crate::uploaders::UploadServiceIdentifier;

verus! {

/// How the final result is presented to the caller.
#[derive(Copy, Clone, PartialEq, Eq, Structural, Debug)]
pub enum OutputFormat {
    Url,
}

/// Closed enumeration of the output image encodings this crate can
/// produce.
#[derive(Copy, Clone, PartialEq, Eq, Structural, Debug)]
pub enum SupportedImageFormat {
    Png,
    Webp,
}

/// The canonical lower-case name of an encoding, also used as its file
/// extension and its option value.
pub open spec fn spec_format_name(f: SupportedImageFormat) -> Seq<char> {
    match f {
        SupportedImageFormat::Png => "png"@,
        SupportedImageFormat::Webp => "webp"@,
    }
}

/// The MIME type a backend is told for each encoding.
pub open spec fn spec_mime_type(f: SupportedImageFormat) -> Seq<char> {
    match f {
        SupportedImageFormat::Png => "image/png"@,
        SupportedImageFormat::Webp => "image/webp"@,
    }
}

impl SupportedImageFormat {
    pub fn to_string(&self) -> (r: &'static str)
        ensures
            r@ == spec_format_name(*self),
    {
        match self {
            SupportedImageFormat::Png => "png",
            SupportedImageFormat::Webp => "webp",
        }
    }

    pub fn to_mime_type(&self) -> (r: &'static str)
        ensures
            r@ == spec_mime_type(*self),
    {
        match self {
            SupportedImageFormat::Png => "image/png",
            SupportedImageFormat::Webp => "image/webp",
        }
    }
}

/// The command-line surface: target edge length, backend, output shape,
/// optional credential override, and output encoding.
#[derive(Debug)]
pub struct Cli {
    pub dims: u32,
    pub service: UploadServiceIdentifier,
    pub output: OutputFormat,
    pub uid: Option<String>,
    pub format: SupportedImageFormat,
}

/// The options seen at the spec level.
#[verifier::ext_equal]
pub ghost struct CliModel {
    pub dims: u32,
    pub service: UploadServiceIdentifier,
    pub output: OutputFormat,
    pub uid: Option<Seq<char>>,
    pub format: SupportedImageFormat,
}

impl View for Cli {
    type V = CliModel;

    open spec fn view(&self) -> CliModel {
        CliModel {
            dims: self.dims,
            service: self.service,
            output: self.output,
            uid: view_opt_string(self.uid),
            format: self.format,
        }
    }
}

/// The options as they stand before any argument is read.
pub open spec fn spec_default_cli() -> CliModel {
    CliModel {
        dims: 256,
        service: UploadServiceIdentifier::Imgur,
        output: OutputFormat::Url,
        uid: None,
        format: SupportedImageFormat::Png,
    }
}

pub open spec fn spec_parse_service(s: Seq<char>) -> Option<UploadServiceIdentifier> {
    if s == "imgur"@ {
        Some(UploadServiceIdentifier::Imgur)
    } else if s == "catbox"@ {
        Some(UploadServiceIdentifier::Catbox)
    } else {
        None
    }
}

pub open spec fn spec_parse_format(s: Seq<char>) -> Option<SupportedImageFormat> {
    if s == "png"@ {
        Some(SupportedImageFormat::Png)
    } else if s == "webp"@ {
        Some(SupportedImageFormat::Webp)
    } else {
        None
    }
}

/// One (option, value) pair after another folded over the defaults; an
/// unknown option, a missing value, or an unreadable value parses to
/// nothing.
pub open spec fn spec_parse_args(args: Seq<Seq<char>>, cur: CliModel) -> Option<CliModel>
    decreases args.len(),
{
    if args.len() == 0 {
        Some(cur)
    } else if args.len() == 1 {
        None
    } else {
        let opt = args[0];
        let val = args[1];
        let rest = args.skip(2);
        if opt == "--dims"@ || opt == "-d"@ {
            if val.len() > 0 && spec_all_digits(val) && 1 <= spec_dec_val(val) <= u32::MAX {
                spec_parse_args(rest, CliModel { dims: spec_dec_val(val) as u32, ..cur })
            } else {
                None
            }
        } else if opt == "--service"@ || opt == "-s"@ {
            match spec_parse_service(val) {
                Some(s) => spec_parse_args(rest, CliModel { service: s, ..cur }),
                None => None,
            }
        } else if opt == "--output"@ || opt == "-o"@ {
            if val == "url"@ {
                spec_parse_args(rest, CliModel { output: OutputFormat::Url, ..cur })
            } else {
                None
            }
        } else if opt == "--uid"@ || opt == "-u"@ {
            spec_parse_args(rest, CliModel { uid: Some(val), ..cur })
        } else if opt == "--format"@ || opt == "-f"@ {
            match spec_parse_format(val) {
                Some(f) => spec_parse_args(rest, CliModel { format: f, ..cur }),
                None => None,
            }
        } else {
            None
        }
    }
}

/// A full argument list: the leading program name is ignored, the rest
/// are (option, value) pairs over the defaults.
pub open spec fn spec_parse_from(args: Seq<Seq<char>>) -> Option<CliModel> {
    if args.len() >= 1 {
        spec_parse_args(args.skip(1), spec_default_cli())
    } else {
        spec_parse_args(args, spec_default_cli())
    }
}

fn parse_service(s: &str) -> (r: Option<UploadServiceIdentifier>)
    ensures
        r == spec_parse_service(s@),
{
    if str_eq(s, "imgur") {
        Some(UploadServiceIdentifier::Imgur)
    } else if str_eq(s, "catbox") {
        Some(UploadServiceIdentifier::Catbox)
    } else {
        None
    }
}

fn parse_format(s: &str) -> (r: Option<SupportedImageFormat>)
    ensures
        r == spec_parse_format(s@),
{
    if str_eq(s, "png") {
        Some(SupportedImageFormat::Png)
    } else if str_eq(s, "webp") {
        Some(SupportedImageFormat::Webp)
    } else {
        None
    }
}

impl Cli {
    /// Parses a program-name-led argument list into options. An unknown
    /// option, a missing value, or a value that cannot be read is a usage
    /// error; the target edge length must be a positive integer.
    pub fn parse_from(args: &Vec<String>) -> (r: Result<Cli, AppError>)
        ensures
            match spec_parse_from(args@.map_values(|a: String| a@)) {
                Some(m) => r matches Ok(c) && c@ == m,
                None => r matches Err(e) && (e is Config || e is UnsupportedService),
            },
    {
        let ghost mapped = args@.map_values(|a: String| a@);
        let mut cli = Cli {
            dims: 256,
            service: UploadServiceIdentifier::Imgur,
            output: OutputFormat::Url,
            uid: None,
            format: SupportedImageFormat::Png,
        };
        let mut i: usize = if args.len() >= 1 {
            1
        } else {
            0
        };
        proof {
            assert(cli@ =~= spec_default_cli());
            if mapped.len() >= 1 {
                assert(mapped.skip(i as int) =~= mapped.skip(1));
            } else {
                assert(mapped.skip(i as int) =~= mapped);
            }
        }
        while i < args.len()
            invariant
                i <= args.len(),
                mapped == args@.map_values(|a: String| a@),
                spec_parse_args(mapped.skip(i as int), cli@) == spec_parse_from(mapped),
            decreases args.len() - i,
        {
            let ghost prev = cli@;
            if i + 1 >= args.len() {
                proof {
                    assert(mapped.skip(i as int).len() == 1);
                }
                return Err(
                    AppError::Config(String::from_str("expected a value after the last option")),
                );
            }
            let opt = &args[i];
            let val = &args[i + 1];
            proof {
                assert(mapped.skip(i as int)[0] == opt@);
                assert(mapped.skip(i as int)[1] == val@);
                assert(mapped.skip(i as int).skip(2) =~= mapped.skip(i as int + 2));
            }
            if str_eq(opt.as_str(), "--dims") || str_eq(opt.as_str(), "-d") {
                match parse_u32(val.as_str()) {
                    Some(v) => {
                        if v == 0 {
                            return Err(
                                AppError::Config(
                                    String::from_str("the dimension option must be positive"),
                                ),
                            );
                        }
                        cli.dims = v;
                        proof {
                            assert(cli@ =~= (CliModel { dims: v, ..prev }));
                        }
                    },
                    None => {
                        return Err(
                            AppError::Config(
                                String::from_str(
                                    "the dimension option needs a positive decimal number",
                                ),
                            ),
                        );
                    },
                }
            } else if str_eq(opt.as_str(), "--service") || str_eq(opt.as_str(), "-s") {
                match parse_service(val.as_str()) {
                    Some(s) => {
                        cli.service = s;
                        proof {
                            assert(cli@ =~= (CliModel { service: s, ..prev }));
                        }
                    },
                    None => {
                        return Err(AppError::UnsupportedService(val.clone()));
                    },
                }
            } else if str_eq(opt.as_str(), "--output") || str_eq(opt.as_str(), "-o") {
                if str_eq(val.as_str(), "url") {
                    cli.output = OutputFormat::Url;
                    proof {
                        assert(cli@ =~= (CliModel { output: OutputFormat::Url, ..prev }));
                    }
                } else {
                    return Err(AppError::Config(String::from_str("unknown output format")));
                }
            } else if str_eq(opt.as_str(), "--uid") || str_eq(opt.as_str(), "-u") {
                cli.uid = Some(val.clone());
                proof {
                    assert(cli@ =~= (CliModel { uid: Some(val@), ..prev }));
                }
            } else if str_eq(opt.as_str(), "--format") || str_eq(opt.as_str(), "-f") {
                match parse_format(val.as_str()) {
                    Some(f) => {
                        cli.format = f;
                        proof {
                            assert(cli@ =~= (CliModel { format: f, ..prev }));
                        }
                    },
                    None => {
                        return Err(AppError::Config(String::from_str("unknown image format")));
                    },
                }
            } else {
                return Err(AppError::Config(String::from_str("unknown option")));
            }
            i += 2;
        }
        proof {
            assert(mapped.skip(i as int).len() == 0);
            assert(mapped.skip(i as int) =~= Seq::<Seq<char>>::empty());
        }
        Ok(cli)
    }
}

} // verus!
