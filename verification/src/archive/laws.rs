//! What holds of the format that a file name denotes.

use crate::archive::{
    spec_extract_to, spec_format, spec_from_filename, spec_secondary_extension, ArchiveErrorView,
    Format, FormatErrorView, Packer, Unpacker,
};
use crate::path::lemmas::{lemma_dotted_extension, lemma_last_segment};
use crate::path::{
    component_end, is_plain, last_segment, spec_extension, spec_file_name, spec_file_stem,
    SEPARATOR,
};
use crate::programs::tar::{spec_compression, Compression};
use crate::text::lemma_last_index_before_unique;
use vstd::prelude::*;

verus! {

/// What the literals of the known extensions hold.
proof fn lemma_known_extensions()
    ensures
        "zip"@ =~= seq!['z', 'i', 'p'],
        "7z"@ =~= seq!['7', 'z'],
        "tgz"@ =~= seq!['t', 'g', 'z'],
        "txz"@ =~= seq!['t', 'x', 'z'],
        "tar"@ =~= seq!['t', 'a', 'r'],
        "bz2"@ =~= seq!['b', 'z', '2'],
        "gz"@ =~= seq!['g', 'z'],
        "lzma"@ =~= seq!['l', 'z', 'm', 'a'],
        "xz"@ =~= seq!['x', 'z'],
        is_plain("zip"@) && is_plain("7z"@) && is_plain("tgz"@) && is_plain("txz"@),
        is_plain("tar"@) && is_plain("bz2"@) && is_plain("gz"@) && is_plain("lzma"@),
        is_plain("xz"@),
        ".zip"@ =~= seq!['.'] + "zip"@,
        ".7z"@ =~= seq!['.'] + "7z"@,
        ".tgz"@ =~= seq!['.'] + "tgz"@,
        ".txz"@ =~= seq!['.'] + "txz"@,
        ".tar"@ =~= seq!['.'] + "tar"@,
        ".tar.bz2"@ =~= seq!['.'] + "tar"@ + seq!['.'] + "bz2"@,
        ".tar.gz"@ =~= seq!['.'] + "tar"@ + seq!['.'] + "gz"@,
        ".tar.lzma"@ =~= seq!['.'] + "tar"@ + seq!['.'] + "lzma"@,
        ".tar.xz"@ =~= seq!['.'] + "tar"@ + seq!['.'] + "xz"@,
{
    reveal_strlit("zip");
    reveal_strlit("7z");
    reveal_strlit("tgz");
    reveal_strlit("txz");
    reveal_strlit("tar");
    reveal_strlit("bz2");
    reveal_strlit("gz");
    reveal_strlit("lzma");
    reveal_strlit("xz");
    reveal_strlit(".zip");
    reveal_strlit(".7z");
    reveal_strlit(".tgz");
    reveal_strlit(".txz");
    reveal_strlit(".tar");
    reveal_strlit(".tar.bz2");
    reveal_strlit(".tar.gz");
    reveal_strlit(".tar.lzma");
    reveal_strlit(".tar.xz");
}

/// A name that ends in `.zip`, `.7z`, `.tgz`, `.txz` or `.tar` denotes the
/// format of that extension, whatever stands before the dot, as long as the
/// dot does not open the file name.
pub proof fn law_plain_extensions(prefix: Seq<char>)
    requires
        prefix.len() > 0,
        prefix.last() != SEPARATOR,
    ensures
        spec_from_filename(prefix + ".zip"@) == Ok::<Format, FormatErrorView>(Format::Zip),
        spec_from_filename(prefix + ".7z"@) == Ok::<Format, FormatErrorView>(Format::SevenZip),
        spec_from_filename(prefix + ".tgz"@) == Ok::<Format, FormatErrorView>(
            Format::Tar(Some(Compression::Gzip)),
        ),
        spec_from_filename(prefix + ".txz"@) == Ok::<Format, FormatErrorView>(
            Format::Tar(Some(Compression::Xz)),
        ),
        spec_from_filename(prefix + ".tar"@) == Ok::<Format, FormatErrorView>(Format::Tar(None)),
{
    lemma_known_extensions();
    lemma_dotted_extension(prefix, "zip"@);
    assert(prefix + ".zip"@ =~= prefix + seq!['.'] + "zip"@);
    lemma_dotted_extension(prefix, "7z"@);
    assert(prefix + ".7z"@ =~= prefix + seq!['.'] + "7z"@);
    lemma_dotted_extension(prefix, "tgz"@);
    assert(prefix + ".tgz"@ =~= prefix + seq!['.'] + "tgz"@);
    lemma_dotted_extension(prefix, "txz"@);
    assert(prefix + ".txz"@ =~= prefix + seq!['.'] + "txz"@);
    lemma_dotted_extension(prefix, "tar"@);
    assert(prefix + ".tar"@ =~= prefix + seq!['.'] + "tar"@);
}

/// The secondary extension of a name that ends in `.tar.` and a plain extension is `tar`.
proof fn lemma_tar_stem(prefix: Seq<char>, ext: Seq<char>)
    requires
        prefix.len() > 0,
        prefix.last() != SEPARATOR,
        ext.len() > 0,
        is_plain(ext),
    ensures
        spec_extension(prefix + seq!['.'] + "tar"@ + seq!['.'] + ext) == Some(ext),
        spec_secondary_extension(prefix + seq!['.'] + "tar"@ + seq!['.'] + ext) == Some("tar"@),
{
    lemma_known_extensions();
    let inner = prefix + seq!['.'] + "tar"@;
    assert(inner.last() == "tar"@.last());
    lemma_dotted_extension(inner, ext);
    let stem = last_segment(inner);
    assert(spec_file_stem(inner + seq!['.'] + ext) == Some(stem));
    // The stem is the file name of `inner`, which ends in `.tar`.
    lemma_dotted_extension(prefix, "tar"@);
    lemma_last_segment(prefix);
    lemma_last_segment(inner);
    let base = last_segment(prefix);
    assert(spec_file_name(inner) == Some(base + seq!['.'] + "tar"@));
    assert(component_end(inner, inner.len() as int) == inner.len());
    assert(stem == base + seq!['.'] + "tar"@);
    lemma_dotted_extension(base, "tar"@);
}

/// A name that ends in `.tar.` and a compression extension denotes a `tar`
/// archive compressed by that method.
pub proof fn law_compressed_tar(prefix: Seq<char>)
    requires
        prefix.len() > 0,
        prefix.last() != SEPARATOR,
    ensures
        spec_from_filename(prefix + ".tar.bz2"@) == Ok::<Format, FormatErrorView>(
            Format::Tar(Some(Compression::Bzip2)),
        ),
        spec_from_filename(prefix + ".tar.gz"@) == Ok::<Format, FormatErrorView>(
            Format::Tar(Some(Compression::Gzip)),
        ),
        spec_from_filename(prefix + ".tar.lzma"@) == Ok::<Format, FormatErrorView>(
            Format::Tar(Some(Compression::Lzma)),
        ),
        spec_from_filename(prefix + ".tar.xz"@) == Ok::<Format, FormatErrorView>(
            Format::Tar(Some(Compression::Xz)),
        ),
{
    lemma_known_extensions();
    lemma_tar_stem(prefix, "bz2"@);
    assert(prefix + ".tar.bz2"@ =~= prefix + seq!['.'] + "tar"@ + seq!['.'] + "bz2"@);
    lemma_tar_stem(prefix, "gz"@);
    assert(prefix + ".tar.gz"@ =~= prefix + seq!['.'] + "tar"@ + seq!['.'] + "gz"@);
    lemma_tar_stem(prefix, "lzma"@);
    assert(prefix + ".tar.lzma"@ =~= prefix + seq!['.'] + "tar"@ + seq!['.'] + "lzma"@);
    lemma_tar_stem(prefix, "xz"@);
    assert(prefix + ".tar.xz"@ =~= prefix + seq!['.'] + "tar"@ + seq!['.'] + "xz"@);
}

/// A compression extension that does not stand behind `.tar` is an error of
/// its own kind, which names the extension.
pub proof fn law_compression_needs_tar(prefix: Seq<char>, extension: Seq<char>)
    requires
        prefix.len() > 0,
        prefix.last() != SEPARATOR,
        spec_compression(extension) is Some,
        spec_extension(last_segment(prefix)) != Some("tar"@),
    ensures
        spec_from_filename(prefix + seq!['.'] + extension) == Err::<Format, FormatErrorView>(
            FormatErrorView::MissingTarComponent { extension },
        ),
{
    lemma_known_extensions();
    lemma_dotted_extension(prefix, extension);
}

/// A name that holds no dot has no extension, and so denotes no format,
/// whatever the directory that it stands in.
pub proof fn law_no_extension(directory: Seq<char>, name: Seq<char>)
    requires
        directory.len() == 0 || directory.last() == SEPARATOR,
        name.len() > 0,
        is_plain(name),
    ensures
        spec_from_filename(directory + name) == Err::<Format, FormatErrorView>(
            FormatErrorView::NoExtension,
        ),
{
    let path = directory + name;
    let n = path.len() as int;
    let m = directory.len() as int;
    assert(path[n - 1] == name[name.len() - 1]);
    assert(component_end(path, n) == n);
    assert forall|i: int| m - 1 < i < n implies path[i] != SEPARATOR by {
        assert(path[i] == name[i - m]);
    }
    assert(m > 0 ==> path[m - 1] == directory[m - 1]);
    lemma_last_index_before_unique(path, SEPARATOR, n, m - 1);
    assert(path.subrange(m, n) =~= name);
    lemma_last_index_before_unique(name, '.', name.len() as int, -1);
}

/// An extension that is none of the known ones is an error that names it,
/// and differs from the error of a name without an extension.
pub proof fn law_unrecognized_extension(prefix: Seq<char>, extension: Seq<char>)
    requires
        prefix.len() > 0,
        prefix.last() != SEPARATOR,
        extension.len() > 0,
        is_plain(extension),
        extension != "zip"@ && extension != "7z"@ && extension != "tgz"@ && extension != "txz"@
            && extension != "tar"@,
        spec_compression(extension) is None,
    ensures
        spec_from_filename(prefix + seq!['.'] + extension) == Err::<Format, FormatErrorView>(
            FormatErrorView::UnrecognizedExtension { extension },
        ),
        spec_from_filename(prefix + seq!['.'] + extension) != Err::<Format, FormatErrorView>(
            FormatErrorView::NoExtension,
        ),
{
    lemma_dotted_extension(prefix, extension);
}

/// A format is read off the extensions of the name and off nothing else:
/// each format comes from its own extensions, and the compression of a tar
/// archive is the one that `tgz`, `txz` or the extension behind `.tar` names.
pub proof fn law_format_comes_from_the_extensions(filename: Seq<char>, format: Format)
    requires
        spec_from_filename(filename) == Ok::<Format, FormatErrorView>(format),
    ensures
        spec_extension(filename) is Some,
        format == Format::Zip ==> spec_extension(filename) == Some("zip"@),
        format == Format::SevenZip ==> spec_extension(filename) == Some("7z"@),
        format == Format::Tar(None) ==> spec_extension(filename) == Some("tar"@),
        format matches Format::Tar(Some(compression)) ==> {
            ||| spec_extension(filename) == Some("tgz"@) && compression == Compression::Gzip
            ||| spec_extension(filename) == Some("txz"@) && compression == Compression::Xz
            ||| spec_compression(spec_extension(filename)->Some_0) == Some(compression)
                && spec_secondary_extension(filename) == Some("tar"@)
        },
{
}

/// An archive of a format that is packed and unpacked alike, which zip, 7z
/// and gzip-compressed tar archives are, is unpacked by the counterpart of
/// the program that packs it.
pub proof fn law_packed_formats_unpack(archive_path: Seq<char>, format: Format)
    requires
        spec_format(archive_path) == Ok::<Format, ArchiveErrorView>(format),
        format == Format::Zip || format == Format::SevenZip || format == Format::Tar(
            Some(Compression::Gzip),
        ),
    ensures
        spec_extract_to(archive_path) is Ok,
        format.spec_packer() == Packer::SevenZip <==> spec_extract_to(archive_path)
            == Ok::<Unpacker, ArchiveErrorView>(Unpacker::SevenZip),
        format.spec_packer() == Packer::Tar <==> spec_extract_to(archive_path) == Ok::<
            Unpacker,
            ArchiveErrorView,
        >(Unpacker::TarGz),
{
}

} // verus!
