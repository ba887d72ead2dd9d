//! The 7-Zip program, which packs and unpacks zip and 7z archives.

use crate::path::relative::{resolve, spec_resolve};
use crate::program::location::Location;
use crate::program::{CommandLine, CommandLineView, Program};
use crate::text::texts;
use vstd::prelude::*;
use vstd::string::*;

verus! {

/// The 7-Zip program.
pub struct SevenZip;

impl Program for SevenZip {
    open spec fn spec_executable_name() -> Seq<char> {
        "7z"@
    }

    fn executable_name() -> (r: &'static str) {
        "7z"
    }
}

/// The arguments that add `paths` to the archive `output_archive`, with
/// every question of the program answered by yes.
pub open spec fn spec_pack_args(output_archive: Seq<char>, paths: Seq<Seq<char>>) -> Seq<
    Seq<char>,
> {
    seq!["a"@, "-y"@, output_archive] + paths
}

/// The pattern that matches what stands directly in `root_directory`.
pub open spec fn spec_contents_pattern(root_directory: Seq<char>) -> Seq<char> {
    spec_resolve(root_directory, "*"@)
}

/// The arguments that unpack `archive_path` into `output_directory` with
/// the paths that the archive holds.
pub open spec fn spec_unpack_args(archive_path: Seq<char>, output_directory: Seq<char>) -> Seq<
    Seq<char>,
> {
    seq!["x"@, "-y"@, "-o"@ + output_directory, archive_path]
}

impl SevenZip {
    /// The command line that packs `paths_to_pack` into `output_archive`.
    pub fn pack_cmd(
        &self,
        location: &Location<SevenZip>,
        output_archive: &str,
        paths_to_pack: &Vec<String>,
    ) -> (r: CommandLine)
        ensures
            r@ == (CommandLineView {
                program: location@,
                args: spec_pack_args(output_archive@, texts(paths_to_pack@)),
            }),
    {
        let mut cmd = location.cmd();
        cmd.arg("a");
        cmd.arg("-y");
        cmd.arg(output_archive);
        cmd.args(paths_to_pack);
        assert(cmd@.args =~= spec_pack_args(output_archive@, texts(paths_to_pack@)));
        cmd
    }

    /// The command line that packs what stands in `root_directory` into
    /// `output_archive`, without the directory itself.
    pub fn pack_directory_contents_cmd(
        &self,
        location: &Location<SevenZip>,
        output_archive: &str,
        root_directory: &str,
    ) -> (r: CommandLine)
        ensures
            r@ == (CommandLineView {
                program: location@,
                args: spec_pack_args(
                    output_archive@,
                    seq![spec_contents_pattern(root_directory@)],
                ),
            }),
    {
        let mut paths: Vec<String> = Vec::new();
        paths.push(resolve(root_directory, "*"));
        assert(texts(paths@) =~= seq![spec_contents_pattern(root_directory@)]);
        self.pack_cmd(location, output_archive, &paths)
    }

    /// The command line that unpacks `archive_path` into `output_directory`.
    pub fn unpack_cmd(
        &self,
        location: &Location<SevenZip>,
        archive_path: &str,
        output_directory: &str,
    ) -> (r: CommandLine)
        ensures
            r@ == (CommandLineView {
                program: location@,
                args: spec_unpack_args(archive_path@, output_directory@),
            }),
    {
        let mut cmd = location.cmd();
        cmd.arg("x");
        cmd.arg("-y");
        cmd.arg(String::from_str("-o").concat(output_directory).as_str());
        cmd.arg(archive_path);
        assert(cmd@.args =~= spec_unpack_args(archive_path@, output_directory@));
        cmd
    }
}

} // verus!
