//! What the locator reads from the native module, as the object file parser reports it.

use object::{Object, ObjectSection};
use vstd::prelude::*;

verus! {

/// A section of the image: the address at which it is mapped and its bytes.
pub struct Section<'a> {
    pub address: u64,
    pub data: &'a [u8],
}

/// The exception directory of the image, the table of its functions.
pub enum ExceptionDirectory<'a> {
    /// The image is not a 64-bit PE file.
    NotPe64,
    /// The image has no such directory.
    Missing,
    /// The bytes of the directory.
    Found(&'a [u8]),
}

/// What [`ExceptionDirectory`] stands for.
pub enum DirectoryLookup {
    NotPe64,
    Missing,
    Found(Seq<u8>),
}

impl<'a> View for ExceptionDirectory<'a> {
    type V = DirectoryLookup;

    open spec fn view(&self) -> DirectoryLookup {
        match *self {
            ExceptionDirectory::NotPe64 => DirectoryLookup::NotPe64,
            ExceptionDirectory::Missing => DirectoryLookup::Missing,
            ExceptionDirectory::Found(data) => DirectoryLookup::Found(data@),
        }
    }
}

/// The base address of the image in `module`; `None` where the parser rejects the file.
pub uninterp spec fn image_base_of(module: Seq<u8>) -> Option<u64>;

/// Address and bytes of the section called `name` in `module`, `Some(None)` where there is
/// no such section, `None` where the parser rejects the file or the section.
pub uninterp spec fn section_of(module: Seq<u8>, name: Seq<char>) -> Option<Option<(u64, Seq<u8>)>>;

/// The exception directory of `module`; `None` where the parser rejects the file or the
/// directory.
pub uninterp spec fn exception_directory_of(module: Seq<u8>) -> Option<DirectoryLookup>;

/// Calls `object::File::parse` and `Object::relative_address_base` on the result. An error
/// of the parser comes out as its text. The contract claims that the outcome is a function
/// of the bytes.
#[verifier::external_body]
pub(crate) fn read_image_base(module: &[u8]) -> (base: Result<u64, String>)
    ensures
        match base {
            Ok(b) => image_base_of(module@) == Some(b),
            Err(_) => image_base_of(module@) is None,
        },
{
    match object::File::parse(module) {
        Ok(file) => Ok(file.relative_address_base()),
        Err(e) => Err(e.to_string()),
    }
}

/// Calls `object::File::parse`, `Object::section_by_name` on the result, and
/// `ObjectSection::address` and `ObjectSection::data` on the section found. An error of the
/// parser comes out as its text. The contract claims that the outcome is a function of the
/// bytes and the name.
#[verifier::external_body]
pub(crate) fn read_section<'a>(module: &'a [u8], name: &str) -> (section: Result<
    Option<Section<'a>>,
    String,
>)
    ensures
        match section {
            Ok(Some(s)) => section_of(module@, name@) == Some(Some((s.address, s.data@))),
            Ok(None) => section_of(module@, name@) == Some(None::<(u64, Seq<u8>)>),
            Err(_) => section_of(module@, name@) is None,
        },
{
    let file = object::File::parse(module).map_err(|e| e.to_string())?;
    let Some(section) = file.section_by_name(name) else { return Ok(None) };
    match section.data() {
        Ok(data) => Ok(Some(Section { address: section.address(), data })),
        Err(e) => Err(e.to_string()),
    }
}

/// Calls `object::File::parse`, and on a 64-bit PE file `PeFile::data_directory` for the
/// exception directory and `ImageDataDirectory::data` on the entry found. An error of the
/// parser comes out as its text. The contract claims that the outcome is a function of the
/// bytes.
#[verifier::external_body]
pub(crate) fn read_exception_directory<'a>(module: &'a [u8]) -> (directory: Result<
    ExceptionDirectory<'a>,
    String,
>)
    ensures
        match directory {
            Ok(d) => exception_directory_of(module@) == Some(d@),
            Err(_) => exception_directory_of(module@) is None,
        },
{
    let file = object::File::parse(module).map_err(|e| e.to_string())?;
    let object::File::Pe64(pe) = file else { return Ok(ExceptionDirectory::NotPe64) };
    let Some(entry) = pe.data_directory(object::pe::IMAGE_DIRECTORY_ENTRY_EXCEPTION) else {
        return Ok(ExceptionDirectory::Missing)
    };
    match entry.data(pe.data(), &pe.section_table()) {
        Ok(data) => Ok(ExceptionDirectory::Found(data)),
        Err(e) => Err(e.to_string()),
    }
}

} // verus!
