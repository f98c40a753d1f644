use vstd::prelude::*;

use crate::bytes::str_eq;
use crate::errors::TextError;
use crate::signing::SignFormat;

verus! {

/// Base64 alphabet selected at the command boundary.
#[derive(Debug, Clone, Copy, PartialEq, Eq, Structural)]
pub enum Base64Format {
    Standard,
    Urlsafe,
}

impl Base64Format {
    /// Parse a base64 alphabet tag.
    pub fn from_str(s: &str) -> (r: Result<Base64Format, TextError>)
        ensures
            (r matches Ok(f) && f is Standard) <==> s@ == "standard"@,
            (r matches Ok(f) && f is Urlsafe) <==> s@ == "urlsafe"@,
            r matches Err(e) ==> e is UnknownFormat,
    {
        proof {
            reveal_strlit("standard");
            reveal_strlit("urlsafe");
            assert("standard"@.len() == 8);
            assert("urlsafe"@.len() == 7);
            assert("standard"@ != "urlsafe"@);
        }
        if str_eq(s, "standard") {
            Ok(Base64Format::Standard)
        } else if str_eq(s, "urlsafe") {
            Ok(Base64Format::Urlsafe)
        } else {
            Err(TextError::UnknownFormat)
        }
    }

    /// The tag this alphabet is selected by.
    pub fn as_str(self) -> (r: &'static str)
        ensures
            self is Standard ==> r@ == "standard"@,
            self is Urlsafe ==> r@ == "urlsafe"@,
    {
        match self {
            Base64Format::Standard => "standard",
            Base64Format::Urlsafe => "urlsafe",
        }
    }
}

/// Output format of the spreadsheet conversion.
#[derive(Debug, Clone, Copy, PartialEq, Eq, Structural)]
pub enum Ofmt {
    Json,
    Yaml,
    Toml,
}

impl Ofmt {
    /// Parse an output-format tag.
    pub fn from_str(s: &str) -> (r: Result<Ofmt, TextError>)
        ensures
            (r matches Ok(f) && f is Json) <==> s@ == "json"@,
            (r matches Ok(f) && f is Yaml) <==> s@ == "yaml"@,
            (r matches Ok(f) && f is Toml) <==> s@ == "toml"@,
            r matches Err(e) ==> e is UnknownFormat,
    {
        proof {
            reveal_strlit("json");
            reveal_strlit("yaml");
            reveal_strlit("toml");
            assert("json"@[0] == 'j');
            assert("yaml"@[0] == 'y');
            assert("toml"@[0] == 't');
            assert("json"@ != "yaml"@ && "json"@ != "toml"@ && "yaml"@ != "toml"@);
        }
        if str_eq(s, "json") {
            Ok(Ofmt::Json)
        } else if str_eq(s, "yaml") {
            Ok(Ofmt::Yaml)
        } else if str_eq(s, "toml") {
            Ok(Ofmt::Toml)
        } else {
            Err(TextError::UnknownFormat)
        }
    }

    /// The tag this format is selected by, also used as an output file
    /// extension.
    pub fn as_str(self) -> (r: &'static str)
        ensures
            self is Json ==> r@ == "json"@,
            self is Yaml ==> r@ == "yaml"@,
            self is Toml ==> r@ == "toml"@,
    {
        match self {
            Ofmt::Json => "json",
            Ofmt::Yaml => "yaml",
            Ofmt::Toml => "toml",
        }
    }
}

/// Options of the spreadsheet conversion command.
#[derive(Debug)]
pub struct CsvOpt {
    pub input: String,
    pub output: Option<String>,
    pub format: Ofmt,
    pub delimiter: char,
    pub header: bool,
}

/// Options of the password generation command.
#[derive(Debug)]
pub struct GenPwdOpt {
    pub length: u8,
    pub noupper: bool,
    pub nolower: bool,
    pub nonumber: bool,
    pub nosymbol: bool,
}

/// Options of the base64 encoding command.
#[derive(Debug)]
pub struct BaseEncodeOpt {
    pub input: String,
    pub format: Base64Format,
}

/// Options of the base64 decoding command.
#[derive(Debug)]
pub struct BaseDecodeOpt {
    pub input: String,
    pub format: Base64Format,
}

/// The base64 subcommands.
#[derive(Debug)]
pub enum BaseSubcmd {
    Encode(BaseEncodeOpt),
    Decode(BaseDecodeOpt),
}

/// Options of the static-file server command.
#[derive(Debug)]
pub struct ServeOpt {
    pub dir: String,
    pub port: u16,
}

/// The file-serving subcommands.
#[derive(Debug)]
pub enum HttpSubcmd {
    Serve(ServeOpt),
}

/// Options of the token signing command.
#[derive(Debug)]
pub struct JwtSignOpt {
    pub sub: String,
    pub aud: String,
    pub exp: u64,
}

/// Options of the token verification command.
#[derive(Debug)]
pub struct JwtVerifyOpt {
    pub token: String,
}

/// The token subcommands.
#[derive(Debug)]
pub enum JwtSubcmd {
    Sign(JwtSignOpt),
    Verify(JwtVerifyOpt),
}

/// Options of the text signing command.
#[derive(Debug)]
pub struct SignOpt {
    pub input: String,
    pub key: String,
    pub format: SignFormat,
}

/// Options of the text verification command.
#[derive(Debug)]
pub struct VerifyOpt {
    pub input: String,
    pub key: String,
    pub format: SignFormat,
    pub sig: String,
}

/// Options of the key generation command.
#[derive(Debug)]
pub struct GenKeyOpt {
    pub output: String,
}

/// Options of the text encryption command.
#[derive(Debug)]
pub struct EncryptOpt {
    pub key: String,
    pub input: String,
}

/// Options of the text decryption command.
#[derive(Debug)]
pub struct DecryptOpt {
    pub key: String,
    pub input: String,
}

/// The text-processing subcommands.
#[derive(Debug)]
pub enum TextSubcmd {
    Sign(SignOpt),
    Verify(VerifyOpt),
    Genkey(GenKeyOpt),
    Encrypt(EncryptOpt),
    Decrypt(DecryptOpt),
}

/// Every subcommand of the toolkit.
#[derive(Debug)]
pub enum SubCmd {
    Csv(CsvOpt),
    Genpassword(GenPwdOpt),
    Base64(BaseSubcmd),
    Text(TextSubcmd),
    Http(HttpSubcmd),
}

/// The toolkit's command line: one subcommand per invocation.
#[derive(Debug)]
pub struct Rcli {
    pub cmd: SubCmd,
}

} // verus!
