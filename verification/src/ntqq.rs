//! Platform specific ways to the database key, and what is done with the key.

pub mod android;
pub mod windows;

use crate::util::{decimal, spec_decimal};
use vstd::prelude::*;
use vstd::string::StringExecFns;

verus! {

#[verifier::external_type_specification]
#[verifier::external_body]
pub struct ExPathBuf(std::path::PathBuf);

/// The platforms on which NT QQ keeps its databases in a known place.
#[derive(Clone, Copy, Debug, PartialEq, Eq, Structural)]
pub enum Platform {
    Windows,
    Linux,
    Android,
}

/// Tells the platform from what is known of the system: whether the program was built for
/// Windows, and whether the system names a data directory the way Android does. Anything
/// that is not Windows counts as Linux, and Linux with such a data directory as Android.
pub fn get_platform(windows: bool, android_data: bool) -> (platform: Platform)
    ensures
        platform == if windows {
            Platform::Windows
        } else if android_data {
            Platform::Android
        } else {
            Platform::Linux
        },
{
    if windows {
        Platform::Windows
    } else if android_data {
        Platform::Android
    } else {
        Platform::Linux
    }
}

/// A message database of one account.
#[derive(Debug, Default)]
pub struct UserDBFile {
    pub path: std::path::PathBuf,
    pub uid: Option<String>,
    pub uin: Option<u64>,
}

impl UserDBFile {
    /// The account in words: the uin, in decimal digits, and the uid in brackets behind it,
    /// each as far as it is known.
    pub open spec fn account_text(&self) -> Seq<char> {
        (match self.uin {
            Some(uin) => spec_decimal(uin as nat),
            None => "unknown_uin"@,
        }) + "("@ + (match self.uid {
            Some(uid) => uid@,
            None => "unknown_uid"@,
        }) + ")"@
    }

    /// Writes the account out in words, as it is shown below the path of the file where a
    /// file is to be chosen.
    pub fn account(&self) -> (text: String)
        ensures
            text@ == self.account_text(),
    {
        let mut text = match self.uin {
            Some(uin) => decimal(uin),
            None => String::from_str("unknown_uin"),
        };
        text.append("(");
        match &self.uid {
            Some(uid) => {
                text.append(uid.as_str());
            },
            None => {
                text.append("unknown_uid");
            },
        }
        text.append(")");
        text
    }
}

/// What is needed to decrypt a database.
#[derive(Debug, Default)]
pub struct DBDecryptInfo {
    /// The passphrase. It is a byte string by nature, but a printable one on every
    /// platform known.
    pub key: String,
    /// `HMAC_SHA1` or `HMAC_SHA256`. `None` stands for "not known, try both"; it has to be
    /// set before the statements are written out.
    pub cipher_hmac_algorithm: Option<String>,
}

/// The `PRAGMA` statements that set a connection up for the database of a
/// [`DBDecryptInfo`].
pub struct DisplayPragmaStmts<'a>(pub &'a DBDecryptInfo);

/// The statements for a passphrase and the name of an HMAC algorithm, one per line.
pub open spec fn pragma_stmts(key: Seq<char>, algorithm: Seq<char>) -> Seq<char> {
    "PRAGMA key = '"@ + key + "';\n"@ + "PRAGMA cipher_page_size = 4096;\n"@
        + "PRAGMA kdf_iter = 4000;\n"@ + "PRAGMA cipher_hmac_algorithm = "@ + algorithm + ";\n"@
        + "PRAGMA cipher_default_kdf_algorithm = PBKDF2_HMAC_SHA512;\n"@
        + "PRAGMA cipher = 'aes-256-cbc';\n"@
}

impl<'a> DisplayPragmaStmts<'a> {
    /// The text of the statements as far as it is determined: `None` while the HMAC
    /// algorithm is not set.
    pub open spec fn text(&self) -> Option<Seq<char>> {
        match self.0.cipher_hmac_algorithm {
            Some(algorithm) => Some(pragma_stmts(self.0.key@, algorithm@)),
            None => None,
        }
    }

    /// Writes the statements out. Without an HMAC algorithm there is nothing to write.
    pub fn to_string(&self) -> (text: Option<String>)
        ensures
            match text {
                Some(t) => self.text() == Some(t@),
                None => self.text() is None,
            },
    {
        match &self.0.cipher_hmac_algorithm {
            Some(algorithm) => {
                let mut text = String::from_str("PRAGMA key = '");
                text.append(self.0.key.as_str());
                text.append("';\n");
                text.append("PRAGMA cipher_page_size = 4096;\n");
                text.append("PRAGMA kdf_iter = 4000;\n");
                text.append("PRAGMA cipher_hmac_algorithm = ");
                text.append(algorithm.as_str());
                text.append(";\n");
                text.append("PRAGMA cipher_default_kdf_algorithm = PBKDF2_HMAC_SHA512;\n");
                text.append("PRAGMA cipher = 'aes-256-cbc';\n");
                Some(text)
            },
            None => None,
        }
    }
}

impl DBDecryptInfo {
    /// The `PRAGMA` statements for this passphrase and algorithm.
    pub fn display_pragma_stmts(&self) -> (stmts: DisplayPragmaStmts<'_>)
        ensures
            *stmts.0 == *self,
    {
        DisplayPragmaStmts(self)
    }
}

} // verus!
