//! Disk images offered to the target over USB mass storage: which files
//! are images, which may be deleted, and what mounting one writes to the
//! USB gadget.

use vstd::prelude::*;
use vstd::string::{StringExecFns, StrSliceExecFns};
use crate::text::{spec_to_lowercase, to_lowercase};
use crate::textscan::{spec_trim, starts_with, starts_with_str, str_eq, trim};

verus! {

/// Errors of the image store; I/O errors are carried as messages.
#[derive(Clone, Debug)]
pub enum StorageError {
    Io(String),
    InvalidFilename(String),
}

/// The image store.
pub struct StorageManager;

/// Directory holding the images.
pub const IMAGE_DIRECTORY: &'static str = "/data";

/// The partition that stands for "no image".
pub const IMAGE_NONE: &'static str = "/dev/mmcblk0p3";

/// The extension of a path, as `Path::extension` gives it: the part of the
/// file name after its last dot, if the name has a dot that is not its
/// first character.
pub uninterp spec fn spec_path_extension(path: Seq<char>) -> Option<Seq<char>>;

/// `std::path::Path::extension`, converted to a string.
#[verifier::external_body]
fn path_extension(path: &str) -> (r: Option<String>)
    ensures
        r matches Some(e) ==> spec_path_extension(path@) == Some(e@),
        r is None ==> spec_path_extension(path@) is None,
{
    std::path::Path::new(path).extension().map(|e| e.to_string_lossy().to_string())
}

/// A path names an image when its extension, in lower case, is `iso` or `img`.
pub open spec fn spec_is_image_path(path: Seq<char>) -> bool {
    match spec_path_extension(path) {
        Some(e) => spec_to_lowercase(e) == "iso"@ || spec_to_lowercase(e) == "img"@,
        None => false,
    }
}

/// Why an image may not be deleted: it must lie under the image directory
/// (by text prefix) and be an image.
pub open spec fn spec_delete_refusal(path: Seq<char>) -> Option<Seq<char>> {
    if !starts_with(path, IMAGE_DIRECTORY@) {
        Some("Not in image directory"@)
    } else if !spec_is_image_path(path) {
        Some("Invalid extension"@)
    } else {
        None
    }
}

/// What mounting writes to the gadget: the read-only and CD-ROM flags, the
/// SCSI inquiry string, and the backing file.
#[derive(Clone, Debug)]
pub struct MountPlan {
    pub read_only: bool,
    pub cdrom: bool,
    pub inquiry: String,
    pub file: String,
}

/// `s` padded with spaces to at least `width` characters.
pub open spec fn pad_right(s: Seq<char>, width: int) -> Seq<char> {
    if s.len() >= width { s } else { s + Seq::new((width - s.len()) as nat, |i: int| ' ') }
}

/// The SCSI inquiry string: vendor in eight columns, product in sixteen,
/// then the revision.
pub open spec fn inquiry_string(cdrom: bool) -> Seq<char> {
    pad_right("NanoKVM"@, 8) + pad_right(if cdrom { "USB CD/DVD-ROM"@ } else { "USB Disk"@ }, 16) + "0520"@
}

fn pad_to(s: &str, width: usize) -> (r: Vec<char>)
    ensures
        r@ == pad_right(s@, width as int),
{
    let mut v = crate::text::chars_of(s);
    let ghost orig = v@;
    while v.len() < width
        invariant
            orig == s@,
            v@.len() >= orig.len(),
            v@.subrange(0, orig.len() as int) == orig,
            forall|i: int| orig.len() <= i < v@.len() ==> v@[i] == ' ',
            orig.len() < width ==> v@.len() <= width,
            orig.len() >= width ==> v@.len() == orig.len(),
        decreases width - v.len(),
    {
        v.push(' ');
    }
    proof {
        if orig.len() >= width {
            assert(v@ =~= orig);
        } else {
            assert(v@ =~= orig + Seq::new((width - orig.len()) as nat, |i: int| ' '));
        }
    }
    v
}

impl StorageManager {
    /// Whether a path names an image.
    pub fn is_image_path(path: &str) -> (r: bool)
        ensures
            r == spec_is_image_path(path@),
    {
        match path_extension(path) {
            Some(e) => {
                let lower = to_lowercase(e.as_str());
                str_eq(lower.as_str(), "iso") || str_eq(lower.as_str(), "img")
            },
            None => false,
        }
    }

    /// Checks that an image may be deleted.
    pub fn check_deletable(path: &str) -> (r: Result<(), StorageError>)
        ensures
            spec_delete_refusal(path@) is None ==> r is Ok,
            spec_delete_refusal(path@) matches Some(m) ==> (r matches Err(StorageError::InvalidFilename(n)) && n@ == m),
    {
        let chars = crate::text::chars_of(path);
        if !starts_with_str(chars.as_slice(), IMAGE_DIRECTORY) {
            return Err(StorageError::InvalidFilename(String::from_str("Not in image directory")));
        }
        if !Self::is_image_path(path) {
            return Err(StorageError::InvalidFilename(String::from_str("Invalid extension")));
        }
        Ok(())
    }

    /// What mounting an image (or, with none, the empty partition) writes.
    /// The CD-ROM mode and the empty partition are read-only.
    pub fn mount_plan(file_path: Option<&str>, cdrom: bool) -> (r: MountPlan)
        ensures
            ({
                let is_none = match file_path { None => true, Some(p) => p@ == IMAGE_NONE@ };
                &&& r.read_only == (cdrom || is_none)
                &&& r.cdrom == cdrom
                &&& r.inquiry@ == inquiry_string(cdrom)
                &&& r.file@ == (match file_path { Some(p) => p@, None => IMAGE_NONE@ })
            }),
    {
        let is_none = match file_path {
            None => true,
            Some(p) => str_eq(p, IMAGE_NONE),
        };
        let mut inquiry = pad_to("NanoKVM", 8);
        let mut product = pad_to(if cdrom { "USB CD/DVD-ROM" } else { "USB Disk" }, 16);
        inquiry.append(&mut product);
        let mut rev = crate::text::chars_of("0520");
        inquiry.append(&mut rev);
        let file = match file_path {
            Some(p) => String::from_str(p),
            None => String::from_str(IMAGE_NONE),
        };
        MountPlan { read_only: cdrom || is_none, cdrom, inquiry: crate::text::string_of(inquiry.as_slice()), file }
    }

    /// The mounted image from the gadget's backing-file text: none when it
    /// is empty or the empty partition.
    pub fn mounted_image_from_text(content: &str) -> (r: Option<String>)
        ensures
            (spec_trim(content@) == IMAGE_NONE@ || spec_trim(content@).len() == 0) ==> r is None,
            !(spec_trim(content@) == IMAGE_NONE@ || spec_trim(content@).len() == 0) ==>
                (r matches Some(s) && s@ == spec_trim(content@)),
    {
        let chars = crate::text::chars_of(content);
        let image = crate::text::string_of(trim(chars.as_slice()));
        if str_eq(image.as_str(), IMAGE_NONE) || image.as_str().unicode_len() == 0 {
            None
        } else {
            Some(image)
        }
    }

    /// Whether the gadget's CD-ROM flag text says CD-ROM.
    pub fn cdrom_flag_from_text(content: &str) -> (r: bool)
        ensures
            r == (spec_trim(content@) == "1"@),
    {
        let chars = crate::text::chars_of(content);
        let t = crate::text::string_of(trim(chars.as_slice()));
        str_eq(t.as_str(), "1")
    }
}

#[derive(Clone, Debug)]
pub struct GetImagesRsp {
    pub files: Vec<String>,
}

#[derive(Clone, Debug)]
pub struct MountImageReq {
    pub file: String,
    pub cdrom: bool,
}

#[derive(Clone, Debug)]
pub struct GetMountedImageRsp {
    pub file: String,
}

#[derive(Clone, Copy, Debug)]
pub struct GetCdRomRsp {
    pub cdrom: i64,
}

#[derive(Clone, Debug)]
pub struct DeleteImageReq {
    pub file: String,
}

} // verus!
