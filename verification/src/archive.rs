//! Archive formats, and which backend serves each operation on an archive.
//!
//! The name of an archive decides its format, and the format decides which
//! program or codec packs and unpacks it. Running the programs and writing
//! the files happens elsewhere: the functions here choose.

pub mod gzip;
pub mod laws;

use crate::archive::gzip::{decode_gzip, gzip_decoded};
use crate::path::relative::{join, relative_to, resolve, spec_join, spec_relative_to, spec_resolve};
use crate::path::{extension, file_stem, option_view, spec_extension, spec_file_stem};
use crate::programs::tar::{spec_compression, Compression, PackError, PackErrorView};
use crate::text::same_text;
use vstd::prelude::*;
use vstd::string::*;

verus! {

/// Archive formats that we handle.
#[derive(Copy, Clone, Debug, PartialEq, Eq)]
pub enum Format {
    Zip,
    SevenZip,
    Tar(Option<Compression>),
}

/// Why a file name denotes no archive format.
#[derive(Clone, Debug, PartialEq, Eq)]
pub enum FormatError {
    /// The name has no extension.
    NoExtension,
    /// The extension names a compression method of `tar`, but no `.tar`
    /// stands before it.
    MissingTarComponent { extension: String },
    /// The extension is none of the known ones.
    UnrecognizedExtension { extension: String },
}

/// A `FormatError` over sequences of characters.
pub enum FormatErrorView {
    NoExtension,
    MissingTarComponent { extension: Seq<char> },
    UnrecognizedExtension { extension: Seq<char> },
}

impl View for FormatError {
    type V = FormatErrorView;

    open spec fn view(&self) -> FormatErrorView {
        match self {
            FormatError::NoExtension => FormatErrorView::NoExtension,
            FormatError::MissingTarComponent { extension } => FormatErrorView::MissingTarComponent {
                extension: extension@,
            },
            FormatError::UnrecognizedExtension { extension } => {
                FormatErrorView::UnrecognizedExtension { extension: extension@ }
            },
        }
    }
}

impl FormatErrorView {
    /// The error in words.
    pub open spec fn message(self) -> Seq<char> {
        match self {
            FormatErrorView::NoExtension => "The path had no extension."@,
            FormatErrorView::MissingTarComponent { extension } => "Extension `."@ + extension
                + "` looks like a tar compression, but there is no `.tar.` component in the name"@,
            FormatErrorView::UnrecognizedExtension { extension } => {
                "Unrecognized archive extension `"@ + extension + "`."@
            },
        }
    }
}

impl FormatError {
    /// The error in words.
    pub fn message(&self) -> (r: String)
        ensures
            r@ == self@.message(),
    {
        match self {
            FormatError::NoExtension => String::from_str("The path had no extension."),
            FormatError::MissingTarComponent { extension } => String::from_str(
                "Extension `.",
            ).concat(extension.as_str()).concat(
                "` looks like a tar compression, but there is no `.tar.` component in the name",
            ),
            FormatError::UnrecognizedExtension { extension } => String::from_str(
                "Unrecognized archive extension `",
            ).concat(extension.as_str()).concat("`."),
        }
    }
}

/// The format that a last extension denotes, given the extension before it.
///
/// `zip`, `7z`, `tgz`, `txz` and `tar` stand for a format by themselves. A
/// compression method of `tar` stands for one only behind `.tar`.
pub open spec fn spec_format_of_extensions(
    extension: Option<Seq<char>>,
    secondary: Option<Seq<char>>,
) -> Result<Format, FormatErrorView> {
    match extension {
        None => Err(FormatErrorView::NoExtension),
        Some(extension) => {
            if extension == "zip"@ {
                Ok(Format::Zip)
            } else if extension == "7z"@ {
                Ok(Format::SevenZip)
            } else if extension == "tgz"@ {
                Ok(Format::Tar(Some(Compression::Gzip)))
            } else if extension == "txz"@ {
                Ok(Format::Tar(Some(Compression::Xz)))
            } else if extension == "tar"@ {
                Ok(Format::Tar(None))
            } else {
                match spec_compression(extension) {
                    Some(compression) => {
                        if secondary == Some("tar"@) {
                            Ok(Format::Tar(Some(compression)))
                        } else {
                            Err(FormatErrorView::MissingTarComponent { extension })
                        }
                    },
                    None => Err(FormatErrorView::UnrecognizedExtension { extension }),
                }
            }
        },
    }
}

/// The extension that stands before the last one: the extension of the stem.
pub open spec fn spec_secondary_extension(filename: Seq<char>) -> Option<Seq<char>> {
    match spec_file_stem(filename) {
        Some(stem) => spec_extension(stem),
        None => None,
    }
}

/// The format that the name `filename` denotes.
pub open spec fn spec_from_filename(filename: Seq<char>) -> Result<Format, FormatErrorView> {
    spec_format_of_extensions(spec_extension(filename), spec_secondary_extension(filename))
}

/// A result of format deduction over sequences of characters.
pub open spec fn format_result_view(r: Result<Format, FormatError>) -> Result<
    Format,
    FormatErrorView,
> {
    match r {
        Ok(format) => Ok(format),
        Err(e) => Err(e@),
    }
}

impl Format {
    /// Deduce the archive format from a given filename.
    ///
    /// The last extension decides: `zip`, `7z`, `tgz`, `txz` and `tar` each
    /// name a format. `bz2`, `gz`, `lzma` and `xz` name a compressed `tar`
    /// archive where the extension before them is `tar`, and are an error
    /// where it is not. A name without an extension, and any other extension,
    /// are errors of their own.
    pub fn from_filename(filename: &str) -> (r: Result<Format, FormatError>)
        ensures
            format_result_view(r) == spec_from_filename(filename@),
    {
        let extension = match extension(filename) {
            Some(extension) => extension,
            None => {
                return Err(FormatError::NoExtension);
            },
        };
        if same_text(extension.as_str(), "zip") {
            Ok(Format::Zip)
        } else if same_text(extension.as_str(), "7z") {
            Ok(Format::SevenZip)
        } else if same_text(extension.as_str(), "tgz") {
            Ok(Format::Tar(Some(Compression::Gzip)))
        } else if same_text(extension.as_str(), "txz") {
            Ok(Format::Tar(Some(Compression::Xz)))
        } else if same_text(extension.as_str(), "tar") {
            Ok(Format::Tar(None))
        } else {
            match Compression::deduce_from_extension(extension.as_str()) {
                Ok(compression) => {
                    if has_tar_stem(filename) {
                        Ok(Format::Tar(Some(compression)))
                    } else {
                        Err(FormatError::MissingTarComponent { extension })
                    }
                },
                Err(_) => Err(FormatError::UnrecognizedExtension { extension }),
            }
        }
    }
}

/// Whether the extension before the last one is `tar`.
fn has_tar_stem(filename: &str) -> (r: bool)
    ensures
        r == (spec_secondary_extension(filename@) == Some("tar"@)),
{
    match file_stem(filename) {
        Some(stem) => match extension(stem.as_str()) {
            Some(secondary) => same_text(secondary.as_str(), "tar"),
            None => false,
        },
        None => false,
    }
}

/// An operation that is served for some formats only.
#[derive(Copy, Clone, Debug, PartialEq, Eq)]
pub enum Operation {
    /// Unpacking archive data that is held in memory.
    Extract,
    /// Taking a single item out of an archive.
    ExtractItem,
    /// Unpacking a whole archive into a directory.
    ExtractTo,
}

/// Why an operation on an archive cannot be served.
#[derive(Clone, Debug, PartialEq, Eq)]
pub enum ArchiveError {
    /// The name of the archive denotes no format.
    Format(FormatError),
    /// The operation is not available for archives of the format.
    Unsupported { operation: Operation, format: Format },
    /// The compressed data could not be decoded.
    Decoding,
    /// The paths cannot be packed.
    Pack(PackError),
}

/// An `ArchiveError` over sequences of characters.
pub enum ArchiveErrorView {
    Format(FormatErrorView),
    Unsupported { operation: Operation, format: Format },
    Decoding,
    Pack(PackErrorView),
}

impl View for ArchiveError {
    type V = ArchiveErrorView;

    open spec fn view(&self) -> ArchiveErrorView {
        match self {
            ArchiveError::Format(e) => ArchiveErrorView::Format(e@),
            ArchiveError::Unsupported { operation, format } => ArchiveErrorView::Unsupported {
                operation: *operation,
                format: *format,
            },
            ArchiveError::Decoding => ArchiveErrorView::Decoding,
            ArchiveError::Pack(e) => ArchiveErrorView::Pack(e@),
        }
    }
}

/// The program that packs an archive.
#[derive(Copy, Clone, Debug, PartialEq, Eq)]
pub enum Packer {
    SevenZip,
    Tar,
}

/// The way in which a whole archive is unpacked into a directory.
#[derive(Copy, Clone, Debug, PartialEq, Eq)]
pub enum Unpacker {
    /// The 7-Zip program unpacks the archive.
    SevenZip,
    /// The archive is decoded as gzip and read as a tar stream, without another program.
    TarGz,
}

/// The way in which a single item is taken out of an archive.
#[derive(Copy, Clone, Debug, PartialEq, Eq)]
pub enum ItemExtractor {
    /// The entries of a zip archive are searched.
    Zip,
    /// The entries of a gzip-compressed tar stream are searched.
    TarGz,
}

/// What is left to unpack once archive data has been prepared.
#[derive(Clone, Debug, PartialEq, Eq)]
pub enum Unpack {
    /// The data is a zip archive, to be unpacked as it is.
    ZipArchive,
    /// The decoded tar stream, to be unpacked entry by entry.
    TarStream(Vec<u8>),
}

/// An `Unpack` over sequences of bytes.
pub enum UnpackView {
    ZipArchive,
    TarStream(Seq<u8>),
}

impl View for Unpack {
    type V = UnpackView;

    open spec fn view(&self) -> UnpackView {
        match self {
            Unpack::ZipArchive => UnpackView::ZipArchive,
            Unpack::TarStream(stream) => UnpackView::TarStream(stream@),
        }
    }
}

/// The view of a result whose error is an `ArchiveError`.
pub open spec fn archive_result_view<T>(r: Result<T, ArchiveError>) -> Result<T, ArchiveErrorView> {
    match r {
        Ok(value) => Ok(value),
        Err(e) => Err(e@),
    }
}

/// The view of what `Format::extract` returns.
pub open spec fn unpack_result_view(r: Result<Unpack, ArchiveError>) -> Result<
    UnpackView,
    ArchiveErrorView,
> {
    match r {
        Ok(unpack) => Ok(unpack@),
        Err(e) => Err(e@),
    }
}

/// The format that `filename` denotes, or the error in the shape of an `ArchiveErrorView`.
pub open spec fn spec_format(filename: Seq<char>) -> Result<Format, ArchiveErrorView> {
    match spec_from_filename(filename) {
        Ok(format) => Ok(format),
        Err(e) => Err(ArchiveErrorView::Format(e)),
    }
}

/// The format that `filename` denotes.
fn format_of(filename: &str) -> (r: Result<Format, ArchiveError>)
    ensures
        archive_result_view(r) == spec_format(filename@),
{
    match Format::from_filename(filename) {
        Ok(format) => Ok(format),
        Err(e) => Err(ArchiveError::Format(e)),
    }
}

impl Format {
    /// The program that packs archives of this format: 7-Zip packs zip and
    /// 7z archives, `tar` packs tar archives, compressed or not.
    pub open spec fn spec_packer(self) -> Packer {
        match self {
            Format::Zip | Format::SevenZip => Packer::SevenZip,
            Format::Tar(_) => Packer::Tar,
        }
    }

    /// The program that packs archives of this format.
    pub fn packer(self) -> (r: Packer)
        ensures
            r == self.spec_packer(),
    {
        match self {
            Format::Zip | Format::SevenZip => Packer::SevenZip,
            Format::Tar(_) => Packer::Tar,
        }
    }

    /// The way in which a whole archive of this format is unpacked: zip and
    /// 7z archives by 7-Zip, gzip-compressed tar archives by decoding them
    /// here. No other tar archive can be unpacked.
    pub open spec fn spec_unpacker(self) -> Option<Unpacker> {
        match self {
            Format::Zip | Format::SevenZip => Some(Unpacker::SevenZip),
            Format::Tar(Some(Compression::Gzip)) => Some(Unpacker::TarGz),
            Format::Tar(_) => None,
        }
    }

    /// The way in which a whole archive of this format is unpacked, if it can be.
    pub fn unpacker(self) -> (r: Option<Unpacker>)
        ensures
            r == self.spec_unpacker(),
    {
        match self {
            Format::Zip | Format::SevenZip => Some(Unpacker::SevenZip),
            Format::Tar(Some(Compression::Gzip)) => Some(Unpacker::TarGz),
            Format::Tar(_) => None,
        }
    }

    /// The way in which a single item is taken out of an archive of this
    /// format. Only zip archives and gzip-compressed tar archives allow it.
    pub open spec fn spec_item_extractor(self) -> Option<ItemExtractor> {
        match self {
            Format::Zip => Some(ItemExtractor::Zip),
            Format::Tar(Some(Compression::Gzip)) => Some(ItemExtractor::TarGz),
            _ => None,
        }
    }

    /// The way in which a single item is taken out of an archive of this
    /// format, if that can be done.
    pub fn item_extractor(self) -> (r: Option<ItemExtractor>)
        ensures
            r == self.spec_item_extractor(),
    {
        match self {
            Format::Zip => Some(ItemExtractor::Zip),
            Format::Tar(Some(Compression::Gzip)) => Some(ItemExtractor::TarGz),
            _ => None,
        }
    }

    /// What is left to unpack of archive data of this format, given what
    /// decoding the data as gzip yields. A zip archive is unpacked as it is.
    /// A gzip-compressed tar archive is unpacked from the decoded stream, and
    /// fails where the data does not decode. No other format is served.
    pub open spec fn spec_extract(self, decoded: Option<Seq<u8>>) -> Result<
        UnpackView,
        ArchiveErrorView,
    > {
        match self {
            Format::Zip => Ok(UnpackView::ZipArchive),
            Format::Tar(Some(Compression::Gzip)) => match decoded {
                Some(stream) => Ok(UnpackView::TarStream(stream)),
                None => Err(ArchiveErrorView::Decoding),
            },
            _ => Err(
                ArchiveErrorView::Unsupported { operation: Operation::Extract, format: self },
            ),
        }
    }

    /// Prepares archive data of this format for unpacking into a directory.
    ///
    /// The data of a zip archive is left as it is. The data of a
    /// gzip-compressed tar archive is decoded, and the tar stream handed
    /// back. Every other format is refused.
    pub fn extract(self, compressed_data: &[u8]) -> (r: Result<Unpack, ArchiveError>)
        ensures
            unpack_result_view(r) == self.spec_extract(gzip_decoded(compressed_data@)),
    {
        match self {
            Format::Zip => Ok(Unpack::ZipArchive),
            Format::Tar(Some(Compression::Gzip)) => match decode_gzip(compressed_data) {
                Ok(stream) => Ok(Unpack::TarStream(stream)),
                Err(e) => Err(e),
            },
            _ => Err(ArchiveError::Unsupported { operation: Operation::Extract, format: self }),
        }
    }
}

/// What `create` returns for the archive `output_archive` and `path_count` paths to pack.
pub open spec fn spec_create(output_archive: Seq<char>, path_count: nat) -> Result<
    Packer,
    ArchiveErrorView,
> {
    match spec_format(output_archive) {
        Ok(format) => {
            if format.spec_packer() == Packer::Tar && path_count != 1 {
                Err(
                    ArchiveErrorView::Pack(
                        PackErrorView::UnsupportedPathCount { count: path_count },
                    ),
                )
            } else {
                Ok(format.spec_packer())
            }
        },
        Err(e) => Err(e),
    }
}

/// Chooses the program that creates the archive `output_archive` from
/// `paths_to_pack`.
///
/// The name of the archive decides: 7-Zip creates zip and 7z archives, `tar`
/// creates tar archives. A name that denotes no format is an error. So is a
/// tar archive of anything but a single path, which `tar` is not driven to
/// pack.
pub fn create(output_archive: &str, paths_to_pack: &Vec<String>) -> (r: Result<
    Packer,
    ArchiveError,
>)
    ensures
        archive_result_view(r) == spec_create(output_archive@, paths_to_pack@.len()),
{
    let packer = format_of(output_archive)?.packer();
    match packer {
        Packer::Tar if paths_to_pack.len() != 1 => Err(
            ArchiveError::Pack(PackError::UnsupportedPathCount { count: paths_to_pack.len() }),
        ),
        _ => Ok(packer),
    }
}

/// Chooses the program that packs the contents of a directory into the
/// archive `output_archive`: 7-Zip for zip and 7z archives, `tar` for tar
/// archives. A name that denotes no format is an error.
pub fn pack_directory_contents(output_archive: &str) -> (r: Result<Packer, ArchiveError>)
    ensures
        archive_result_view(r) == match spec_format(output_archive@) {
            Ok(format) => Ok(format.spec_packer()),
            Err(e) => Err(e),
        },
{
    Ok(format_of(output_archive)?.packer())
}

/// What `extract_item` returns for the archive `archive_path`.
pub open spec fn spec_extract_item(archive_path: Seq<char>) -> Result<
    ItemExtractor,
    ArchiveErrorView,
> {
    match spec_format(archive_path) {
        Ok(format) => match format.spec_item_extractor() {
            Some(extractor) => Ok(extractor),
            None => Err(
                ArchiveErrorView::Unsupported { operation: Operation::ExtractItem, format },
            ),
        },
        Err(e) => Err(e),
    }
}

/// Chooses the way in which a single item, or the subtree below it, is taken
/// out of the archive `archive_path` without unpacking the rest.
///
/// Zip archives and gzip-compressed tar archives are served. Every other
/// format is an error that names the operation and the format.
pub fn extract_item(archive_path: &str) -> (r: Result<ItemExtractor, ArchiveError>)
    ensures
        archive_result_view(r) == spec_extract_item(archive_path@),
{
    let format = format_of(archive_path)?;
    match format.item_extractor() {
        Some(extractor) => Ok(extractor),
        None => Err(ArchiveError::Unsupported { operation: Operation::ExtractItem, format }),
    }
}

/// Where an entry of an archive goes when the item `item_path` is taken out
/// to `output_path`: an entry at or below the item goes to its path relative
/// to the item, resolved against `output_path`. Every other entry stays in
/// the archive.
pub open spec fn spec_item_target(
    item_path: Seq<char>,
    output_path: Seq<char>,
    entry_path: Seq<char>,
) -> Option<Seq<char>> {
    match spec_relative_to(entry_path, item_path) {
        Some(rest) => Some(spec_resolve(output_path, spec_join(rest))),
        None => None,
    }
}

/// Decides where the entry `entry_path` of an archive goes when the item
/// `item_path` is taken out to `output_path`, if it is taken out at all.
pub fn item_target(item_path: &str, output_path: &str, entry_path: &str) -> (r: Option<String>)
    ensures
        option_view(r) == spec_item_target(item_path@, output_path@, entry_path@),
{
    match relative_to(entry_path, item_path) {
        Some(rest) => Some(resolve(output_path, join(&rest).as_str())),
        None => None,
    }
}

/// What `extract_to` returns for the archive `archive_path`.
pub open spec fn spec_extract_to(archive_path: Seq<char>) -> Result<Unpacker, ArchiveErrorView> {
    match spec_format(archive_path) {
        Ok(format) => match format.spec_unpacker() {
            Some(unpacker) => Ok(unpacker),
            None => Err(ArchiveErrorView::Unsupported { operation: Operation::ExtractTo, format }),
        },
        Err(e) => Err(e),
    }
}

/// Chooses the way in which the whole archive `archive_path` is unpacked into
/// a directory.
///
/// 7-Zip unpacks zip and 7z archives. A gzip-compressed tar archive is
/// decoded and read here. Every other tar archive is an error that names the
/// operation and the format.
pub fn extract_to(archive_path: &str) -> (r: Result<Unpacker, ArchiveError>)
    ensures
        archive_result_view(r) == spec_extract_to(archive_path@),
{
    let format = format_of(archive_path)?;
    match format.unpacker() {
        Some(unpacker) => Ok(unpacker),
        None => Err(ArchiveError::Unsupported { operation: Operation::ExtractTo, format }),
    }
}

} // verus!
