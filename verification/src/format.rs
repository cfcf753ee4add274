//! The formats that detection can report, and what is shown of each: the
//! customary file extension and the command that unpacks such a file.

use vstd::prelude::*;
use vstd::string::StringExecFns;
use crate::quote::{
    escape_filename, escaped_filename, has_double_quote, lemma_escaped_holds_name, needs_quotes,
    occurs_in,
};

verus! {

/// A recognised archive or compression format. Only the two compressed
/// streams that may carry a tar archive say whether they do.
#[derive(Clone, Copy, Debug, PartialEq, Eq, Structural)]
pub enum ArchiveType {
    Zip,
    Tar,
    Gzip { tar: bool },
    Bzip2 { tar: bool },
    Xz,
    SevenZ,
    MSCabinet,
}

impl ArchiveType {
    /// The extension that files of this format usually have, dot included.
    pub open spec fn extension(self) -> Seq<char> {
        match self {
            ArchiveType::Zip => ".zip"@,
            ArchiveType::Tar => ".tar"@,
            ArchiveType::Gzip { tar: false } => ".gz"@,
            ArchiveType::Gzip { tar: true } => ".tar.gz"@,
            ArchiveType::Bzip2 { tar: false } => ".bz2"@,
            ArchiveType::Bzip2 { tar: true } => ".tar.bz2"@,
            ArchiveType::Xz => ".xz"@,
            ArchiveType::SevenZ => ".7z"@,
            ArchiveType::MSCabinet => ".cab"@,
        }
    }

    /// The program that unpacks this format, with its options.
    pub open spec fn unpacker(self) -> Seq<char> {
        match self {
            ArchiveType::Zip => "unzip"@,
            ArchiveType::Tar => "tar -xf"@,
            ArchiveType::Gzip { tar: false } => "gunzip"@,
            ArchiveType::Gzip { tar: true } => "tar -xzf"@,
            ArchiveType::Bzip2 { tar: false } => "bunzip2"@,
            ArchiveType::Bzip2 { tar: true } => "tar -xjf"@,
            ArchiveType::Xz => "xz -d"@,
            ArchiveType::SevenZ => "7z x"@,
            ArchiveType::MSCabinet => "cabextract"@,
        }
    }

    /// The unpack command for a file of this format: the unpacker, a space,
    /// and the file name, quoted where it has to be.
    pub open spec fn command(self, filename: Seq<char>) -> Seq<char> {
        self.unpacker() + seq![' '] + escaped_filename(filename)
    }

    /// The extension that files of this format usually have. It is never
    /// empty and begins with a dot.
    pub fn typical_extension(&self) -> (ext: &'static str)
        ensures
            ext@ == self.extension(),
            ext@.len() > 0,
            ext@[0] == '.',
    {
        proof {
            reveal_strlit(".zip");
            reveal_strlit(".tar");
            reveal_strlit(".gz");
            reveal_strlit(".tar.gz");
            reveal_strlit(".bz2");
            reveal_strlit(".tar.bz2");
            reveal_strlit(".xz");
            reveal_strlit(".7z");
            reveal_strlit(".cab");
        }
        match self {
            ArchiveType::Zip => ".zip",
            ArchiveType::Tar => ".tar",
            ArchiveType::Gzip { tar: false } => ".gz",
            ArchiveType::Gzip { tar: true } => ".tar.gz",
            ArchiveType::Bzip2 { tar: false } => ".bz2",
            ArchiveType::Bzip2 { tar: true } => ".tar.bz2",
            ArchiveType::Xz => ".xz",
            ArchiveType::SevenZ => ".7z",
            ArchiveType::MSCabinet => ".cab",
        }
    }

    /// The program that unpacks this format, with its options.
    fn unpacker_name(&self) -> (name: &'static str)
        ensures
            name@ == self.unpacker(),
    {
        match self {
            ArchiveType::Zip => "unzip",
            ArchiveType::Tar => "tar -xf",
            ArchiveType::Gzip { tar: false } => "gunzip",
            ArchiveType::Gzip { tar: true } => "tar -xzf",
            ArchiveType::Bzip2 { tar: false } => "bunzip2",
            ArchiveType::Bzip2 { tar: true } => "tar -xjf",
            ArchiveType::Xz => "xz -d",
            ArchiveType::SevenZ => "7z x",
            ArchiveType::MSCabinet => "cabextract",
        }
    }

    /// A shell command that unpacks the file `filename` of this format.
    pub fn decompress_cmd(&self, filename: &str) -> (cmd: String)
        ensures
            cmd@ == self.command(filename@),
    {
        let shown = escape_filename(filename);
        let mut cmd = String::from_str(self.unpacker_name());
        cmd.push(' ');
        cmd.append(shown.as_str());
        assert(cmd@ =~= self.command(filename@));
        cmd
    }
}

/// Every format has an extension that is not empty and begins with a dot.
pub proof fn lemma_extension_begins_with_dot(format: ArchiveType)
    ensures
        format.extension().len() > 0,
        format.extension()[0] == '.',
{
    reveal_strlit(".zip");
    reveal_strlit(".tar");
    reveal_strlit(".gz");
    reveal_strlit(".tar.gz");
    reveal_strlit(".bz2");
    reveal_strlit(".tar.bz2");
    reveal_strlit(".xz");
    reveal_strlit(".7z");
    reveal_strlit(".cab");
}

/// The unpack command of every format names the file, character for
/// character, unless the file name has both a blank and a double quote: then
/// the command holds the name with its double quotes backslashed.
pub proof fn lemma_command_names_file(format: ArchiveType, filename: Seq<char>)
    requires
        !(needs_quotes(filename) && has_double_quote(filename)),
    ensures
        occurs_in(filename, format.command(filename)),
{
    lemma_escaped_holds_name(filename);
    let shown = escaped_filename(filename);
    let at = choose|at: int|
        0 <= at && at + filename.len() <= shown.len() && #[trigger] shown.subrange(
            at,
            at + filename.len(),
        ) == filename;
    let lead = format.unpacker().len() + 1;
    let cmd = format.command(filename);
    assert(cmd.subrange(lead + at, lead + at + filename.len()) =~= shown.subrange(
        at,
        at + filename.len(),
    ));
}

} // verus!
