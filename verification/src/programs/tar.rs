//! The `tar` program: its compression methods, switches and commands.

use crate::archive::laws::{law_compressed_tar, law_plain_extensions};
use crate::archive::{spec_from_filename, Format};
use crate::path::lemmas::lemma_file_name_is_single_component;
use crate::path::{
    file_name, is_single_component, parent, spec_file_name, spec_parent, SEPARATOR,
};
use crate::program::location::Location;
use crate::program::{CommandLine, CommandLineView, Program};
use crate::text::{same_text, texts};
use vstd::prelude::*;
use vstd::string::*;

verus! {

/// A compression method that `tar` can apply to an archive.
#[derive(Clone, Copy, Debug, Ord, PartialOrd, Eq, PartialEq, Structural)]
pub enum Compression {
    Bzip2,
    Gzip,
    Lzma,
    Xz,
}

/// An extension that names no compression method.
#[derive(Clone, Debug, PartialEq, Eq)]
pub struct UnsupportedCompression {
    pub extension: String,
}

/// The compression method that the extension `extension` denotes.
pub open spec fn spec_compression(extension: Seq<char>) -> Option<Compression> {
    if extension == "bz2"@ {
        Some(Compression::Bzip2)
    } else if extension == "gz"@ {
        Some(Compression::Gzip)
    } else if extension == "lzma"@ {
        Some(Compression::Lzma)
    } else if extension == "xz"@ {
        Some(Compression::Xz)
    } else {
        None
    }
}

impl UnsupportedCompression {
    /// What `message` returns for the extension `extension`.
    pub open spec fn spec_message(extension: Seq<char>) -> Seq<char> {
        "The extension `"@ + extension
            + "` does not denote a supported compression algorithm for TAR archives."@
    }

    /// The error in words.
    pub fn message(&self) -> (r: String)
        ensures
            r@ == Self::spec_message(self.extension@),
    {
        String::from_str("The extension `").concat(self.extension.as_str()).concat(
            "` does not denote a supported compression algorithm for TAR archives.",
        )
    }
}

impl Compression {
    /// The compression method that a file extension denotes: `bz2`, `gz`,
    /// `lzma` or `xz`. Any other extension is an error that carries it.
    pub fn deduce_from_extension(extension: &str) -> (r: Result<Compression, UnsupportedCompression>)
        ensures
            match r {
                Ok(compression) => spec_compression(extension@) == Some(compression),
                Err(e) => spec_compression(extension@) is None && e.extension@ == extension@,
            },
    {
        if same_text(extension, "bz2") {
            Ok(Compression::Bzip2)
        } else if same_text(extension, "gz") {
            Ok(Compression::Gzip)
        } else if same_text(extension, "lzma") {
            Ok(Compression::Lzma)
        } else if same_text(extension, "xz") {
            Ok(Compression::Xz)
        } else {
            Err(UnsupportedCompression { extension: extension.to_owned() })
        }
    }

    /// The name of the method.
    pub open spec fn spec_name(self) -> Seq<char> {
        match self {
            Compression::Bzip2 => "bzip2"@,
            Compression::Gzip => "gzip"@,
            Compression::Lzma => "lzma"@,
            Compression::Xz => "xz"@,
        }
    }

    /// The name of the method, as it is shown to a reader.
    pub fn to_string(&self) -> (r: String)
        ensures
            r@ == self.spec_name(),
    {
        match self {
            Compression::Bzip2 => String::from_str("bzip2"),
            Compression::Gzip => String::from_str("gzip"),
            Compression::Lzma => String::from_str("lzma"),
            Compression::Xz => String::from_str("xz"),
        }
    }

    /// The switch that selects the method on the command line of `tar`.
    pub open spec fn spec_flag(self) -> Seq<char> {
        match self {
            Compression::Bzip2 => "-j"@,
            Compression::Gzip => "-z"@,
            Compression::Lzma => "--lzma"@,
            Compression::Xz => "-J"@,
        }
    }
}

impl AsRef<str> for Compression {
    /// The switch that selects the method on the command line of `tar`.
    fn as_ref(&self) -> (r: &str)
        ensures
            r@ == self.spec_flag(),
    {
        match self {
            Compression::Bzip2 => "-j",
            Compression::Gzip => "-z",
            Compression::Lzma => "--lzma",
            Compression::Xz => "-J",
        }
    }
}

/// A switch on the command line of `tar`.
#[derive(Debug, Ord, PartialOrd, Eq, PartialEq)]
pub enum Switch {
    TargetFile(String),
    Verbose,
    UseFormat(Compression),
    WorkingDir(String),
}

impl Switch {
    /// The arguments that make up the switch.
    pub open spec fn spec_args(self) -> Seq<Seq<char>> {
        match self {
            Switch::TargetFile(target) => seq!["-f"@, target@],
            Switch::Verbose => seq!["--verbose"@],
            Switch::UseFormat(compression) => seq![compression.spec_flag()],
            Switch::WorkingDir(dir) => seq!["--directory"@, dir@],
        }
    }

    /// The arguments that make up the switch, in the order `tar` expects them.
    pub fn args(&self) -> (r: Vec<String>)
        ensures
            texts(r@) == self.spec_args(),
    {
        let mut r: Vec<String> = Vec::new();
        match self {
            Switch::TargetFile(target) => {
                r.push(String::from_str("-f"));
                r.push(target.clone());
            },
            Switch::Verbose => {
                r.push(String::from_str("--verbose"));
            },
            Switch::UseFormat(compression) => {
                let flag: &str = compression.as_ref();
                r.push(flag.to_owned());
            },
            Switch::WorkingDir(dir) => {
                r.push(String::from_str("--directory"));
                r.push(dir.clone());
            },
        }
        assert(texts(r@) =~= self.spec_args());
        r
    }
}

/// What `tar` is asked to do with an archive.
#[derive(Debug, Ord, PartialOrd, Eq, PartialEq)]
pub enum Command {
    Append,
    Create,
    Extract,
    List,
}

impl Command {
    /// The argument that selects the command.
    pub open spec fn spec_flag(self) -> Seq<char> {
        match self {
            Command::Append => "-r"@,
            Command::Create => "-c"@,
            Command::Extract => "-x"@,
            Command::List => "-t"@,
        }
    }
}

impl AsRef<str> for Command {
    /// The argument that selects the command.
    fn as_ref(&self) -> (r: &str)
        ensures
            r@ == self.spec_flag(),
    {
        match self {
            Command::Append => "-r",
            Command::Create => "-c",
            Command::Extract => "-x",
            Command::List => "-t",
        }
    }
}

/// Why no command line packs the given paths.
#[derive(Clone, Debug, PartialEq, Eq)]
pub enum PackError {
    /// Only a single path can be packed.
    UnsupportedPathCount { count: usize },
    /// The path leads to no named entry.
    NoFileName { path: String },
}

/// A `PackError` over sequences of characters.
pub enum PackErrorView {
    UnsupportedPathCount { count: nat },
    NoFileName { path: Seq<char> },
}

impl View for PackError {
    type V = PackErrorView;

    open spec fn view(&self) -> PackErrorView {
        match self {
            PackError::UnsupportedPathCount { count } => PackErrorView::UnsupportedPathCount {
                count: *count as nat,
            },
            PackError::NoFileName { path } => PackErrorView::NoFileName { path: path@ },
        }
    }
}

/// The switch for the compression that the name of the archive asks for.
pub open spec fn spec_compression_args(output_archive: Seq<char>) -> Seq<Seq<char>> {
    match spec_from_filename(output_archive) {
        Ok(Format::Tar(Some(compression))) => seq![compression.spec_flag()],
        _ => Seq::empty(),
    }
}

/// The arguments that create the archive `output_archive`, before any input is named.
pub open spec fn spec_create_args(output_archive: Seq<char>) -> Seq<Seq<char>> {
    seq!["-c"@] + spec_compression_args(output_archive) + seq!["-f"@, output_archive]
}

/// The arguments that name the single input `path`: its parent as the
/// working directory, then its file name.
pub open spec fn spec_input_args(parent: Seq<char>, name: Seq<char>) -> Seq<Seq<char>> {
    seq!["--directory"@, parent, name]
}

/// The arguments that name all that stands in `root_directory`: the
/// directory as the working directory, then `.`.
pub open spec fn spec_contents_args(root_directory: Seq<char>) -> Seq<Seq<char>> {
    seq!["--directory"@, root_directory, "."@]
}

/// The command line that packs `paths` into `output_archive` with the `tar` at `program`.
pub open spec fn spec_pack_cmd(
    program: Seq<char>,
    output_archive: Seq<char>,
    paths: Seq<Seq<char>>,
) -> Result<CommandLineView, PackErrorView> {
    if paths.len() != 1 {
        Err(PackErrorView::UnsupportedPathCount { count: paths.len() })
    } else {
        match (spec_parent(paths[0]), spec_file_name(paths[0])) {
            (None, _) => Ok(CommandLineView { program, args: spec_create_args(output_archive) }),
            (Some(parent), Some(name)) => Ok(
                CommandLineView {
                    program,
                    args: spec_create_args(output_archive) + spec_input_args(parent, name),
                },
            ),
            (Some(_), None) => Err(PackErrorView::NoFileName { path: paths[0] }),
        }
    }
}

/// The result of `pack_cmd` over sequences of characters.
pub open spec fn pack_result_view(r: Result<CommandLine, PackError>) -> Result<
    CommandLineView,
    PackErrorView,
> {
    match r {
        Ok(cmd) => Ok(cmd@),
        Err(e) => Err(e@),
    }
}

/// The `tar` program.
pub struct Tar;

impl Program for Tar {
    open spec fn spec_executable_name() -> Seq<char> {
        "tar"@
    }

    fn executable_name() -> (r: &'static str) {
        "tar"
    }
}

impl Tar {
    /// The command line that creates `output_archive`, before any input is
    /// named: the command, the switch for the compression that the name of
    /// the archive asks for, and the archive as the target.
    fn create_cmd(&self, location: &Location<Tar>, output_archive: &str) -> (r: CommandLine)
        ensures
            r@ == (CommandLineView {
                program: location@,
                args: spec_create_args(output_archive@),
            }),
    {
        let mut cmd = location.cmd();
        cmd.arg(Command::Create.as_ref());
        if let Ok(Format::Tar(Some(compression))) = Format::from_filename(output_archive) {
            cmd.args(&Switch::UseFormat(compression).args());
        }
        cmd.args(&Switch::TargetFile(output_archive.to_owned()).args());
        assert(cmd@.args =~= spec_create_args(output_archive@));
        cmd
    }

    /// The command line that packs `paths_to_pack` into `output_archive`.
    ///
    /// `location` is where `tar` is installed. The paths are expected in
    /// canonical form. The name of the archive decides the compression. A
    /// single path is packed from its parent directory under its file name
    /// alone, so that no directory prefix enters the archive. Any other
    /// number of paths is an error, and so is a path with a parent but
    /// without a file name.
    pub fn pack_cmd(
        &self,
        location: &Location<Tar>,
        output_archive: &str,
        paths_to_pack: &Vec<String>,
    ) -> (r: Result<CommandLine, PackError>)
        ensures
            pack_result_view(r) == spec_pack_cmd(
                location@,
                output_archive@,
                texts(paths_to_pack@),
            ),
    {
        if paths_to_pack.len() != 1 {
            return Err(PackError::UnsupportedPathCount { count: paths_to_pack.len() });
        }
        let mut cmd = self.create_cmd(location, output_archive);
        let item = paths_to_pack[0].as_str();
        if let Some(parent) = parent(item) {
            match file_name(item) {
                Some(name) => {
                    cmd.args(&Switch::WorkingDir(parent).args());
                    cmd.arg(name.as_str());
                    assert(cmd@.args =~= spec_create_args(output_archive@) + spec_input_args(
                        parent@,
                        name@,
                    ));
                },
                None => {
                    return Err(PackError::NoFileName { path: paths_to_pack[0].clone() });
                },
            }
        }
        Ok(cmd)
    }

    /// The command line that packs what stands in `root_directory` into
    /// `output_archive`, without the directory itself. The name of the
    /// archive decides the compression.
    pub fn pack_directory_contents_cmd(
        &self,
        location: &Location<Tar>,
        output_archive: &str,
        root_directory: &str,
    ) -> (r: CommandLine)
        ensures
            r@ == (CommandLineView {
                program: location@,
                args: spec_create_args(output_archive@) + spec_contents_args(root_directory@),
            }),
    {
        let mut cmd = self.create_cmd(location, output_archive);
        cmd.args(&Switch::WorkingDir(root_directory.to_owned()).args());
        cmd.arg(".");
        assert(cmd@.args =~= spec_create_args(output_archive@) + spec_contents_args(
            root_directory@,
        ));
        cmd
    }
}


/// A single path that has a parent and a file name is packed from its parent
/// directory, and the only input that the command line names is its file
/// name, which holds no separator: no directory prefix enters the archive.
pub proof fn law_single_path_packed_by_name(
    program: Seq<char>,
    output_archive: Seq<char>,
    path: Seq<char>,
)
    requires
        spec_parent(path) is Some,
        spec_file_name(path) is Some,
    ensures
        spec_pack_cmd(program, output_archive, seq![path]) matches Ok(cmd) && {
            let n = cmd.args.len() as int;
            &&& cmd.args == spec_create_args(output_archive) + seq![
                "--directory"@,
                spec_parent(path)->Some_0,
                spec_file_name(path)->Some_0,
            ]
            &&& cmd.args[n - 1] == spec_file_name(path)->Some_0
            &&& cmd.args[n - 2] == spec_parent(path)->Some_0
            &&& is_single_component(cmd.args[n - 1])
        },
{
    lemma_file_name_is_single_component(path);
}


/// The switch for the compression follows the name of the archive: each
/// name of a compressed tar archive asks for the switch of its method, and a
/// name that denotes no compressed tar archive asks for none.
pub proof fn law_compression_switch_follows_name(prefix: Seq<char>)
    requires
        prefix.len() > 0,
        prefix.last() != SEPARATOR,
    ensures
        spec_compression_args(prefix + ".tar.bz2"@) == seq!["-j"@],
        spec_compression_args(prefix + ".tar.gz"@) == seq!["-z"@],
        spec_compression_args(prefix + ".tgz"@) == seq!["-z"@],
        spec_compression_args(prefix + ".tar.lzma"@) == seq!["--lzma"@],
        spec_compression_args(prefix + ".tar.xz"@) == seq!["-J"@],
        spec_compression_args(prefix + ".txz"@) == seq!["-J"@],
        spec_compression_args(prefix + ".tar"@) == Seq::<Seq<char>>::empty(),
        spec_compression_args(prefix + ".zip"@) == Seq::<Seq<char>>::empty(),
        spec_compression_args(prefix + ".7z"@) == Seq::<Seq<char>>::empty(),
{
    law_plain_extensions(prefix);
    law_compressed_tar(prefix);
}

} // verus!
