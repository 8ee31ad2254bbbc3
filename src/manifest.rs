//! Target manifests: which sources of a target to format, and in which
//! edition, and the list of manifests handed to a formatting run.

use std::path::PathBuf;
use vstd::prelude::*;

use crate::locate::{refusal_of, Locator, RustfmtError};
use crate::text::{
    decimal_i32, keep_non_empty, lemma_keep_non_empty_all, lemma_pieces_extend,
    lemma_pieces_terminated, non_empty_pieces, parse_i32, plain_lines, split_non_empty,
    terminated, texts,
};

verus! {

/// The extension of the manifest files that describe a target.
pub const RUSTFMT_MANIFEST_EXTENSION: &'static str = "rustfmt";

/// The lines of a manifest that count: its non-empty lines, in order.
pub open spec fn manifest_lines(content: Seq<char>) -> Seq<Seq<char>> {
    non_empty_pieces(content, '\n')
}

/// A manifest written as source lines followed by one edition line, with or
/// without a newline after the edition, has exactly those lines: the
/// sources, in order, then the edition.
pub proof fn lemma_manifest_lines(sources: Seq<Seq<char>>, edition: Seq<char>)
    requires
        plain_lines(sources.push(edition), '\n'),
    ensures
        manifest_lines(terminated(sources.push(edition), '\n')) == sources.push(edition),
        manifest_lines(terminated(sources, '\n') + edition) == sources.push(edition),
{
    let all = sources.push(edition);
    assert forall|i: int| 0 <= i < all.len() implies #[trigger] all[i].len() > 0 by {}
    lemma_keep_non_empty_all(all);
    // With a final newline: the lines and one empty piece, which is dropped.
    lemma_pieces_terminated(all, '\n');
    let with_end = all.push(Seq::<char>::empty());
    assert(with_end.drop_last() == all);
    assert(keep_non_empty(with_end) == keep_non_empty(all));
    // Without it: the edition extends the empty piece after the sources.
    assert(plain_lines(sources, '\n')) by {
        assert forall|i: int| 0 <= i < sources.len() implies #[trigger] sources[i].len() > 0
            && !sources[i].contains('\n') by {
            assert(sources[i] == all[i]);
        }
    }
    lemma_pieces_terminated(sources, '\n');
    assert(all[sources.len() as int] == edition);
    lemma_pieces_extend(terminated(sources, '\n'), edition, '\n');
    assert(Seq::<char>::empty() + edition == edition);
    assert(sources.push(Seq::<char>::empty()).update(sources.len() as int, edition) == all);
    assert(all.drop_last() == sources);
}

/// What a manifest lists before its edition line, as logical paths.
#[derive(Debug)]
pub struct ManifestEntries {
    /// The language edition, from the last non-empty line.
    pub edition: i32,
    /// The logical paths of the sources, in manifest order.
    pub sources: Vec<String>,
}

/// A target's edition and the on-disk paths of its sources.
#[derive(Debug)]
pub struct RustfmtManifest {
    /// The language edition of the target.
    pub edition: i32,
    /// The sources to format, in manifest order.
    pub sources: Vec<PathBuf>,
}

/// Reads the text of a manifest: every non-empty line but the last is a
/// source's logical path, and the last is the edition, in decimal.
pub fn parse_manifest_entries(content: &str) -> (r: Result<ManifestEntries, RustfmtError>)
    ensures
        ({
            let lines = manifest_lines(content@);
            &&& lines.len() == 0 ==> r is Err && r->Err_0 is EmptyManifest
            &&& lines.len() > 0 && decimal_i32(lines.last()) is None ==> r is Err
                && r->Err_0 is NonNumericEdition && r->Err_0->NonNumericEdition_0@
                == lines.last()
            &&& lines.len() > 0 && decimal_i32(lines.last()) is Some ==> r is Ok
                && r->Ok_0.edition == decimal_i32(lines.last())->0 && texts(
                r->Ok_0.sources@,
            ) == lines.drop_last()
        }),
{
    let mut lines = split_non_empty(content, '\n');
    let ghost all = lines@;
    match lines.pop() {
        None => Err(RustfmtError::EmptyManifest),
        Some(last) => {
            proof {
                assert(texts(lines@) == texts(all).drop_last());
            }
            match parse_i32(last.as_str()) {
                None => Err(RustfmtError::NonNumericEdition(last)),
                Some(edition) => Ok(ManifestEntries { edition, sources: lines }),
            }
        },
    }
}

/// Reads the text of a manifest and resolves each of its sources through
/// `locator`, in order.
pub fn parse_rustfmt_manifest(locator: &Locator, content: &str) -> (r: Result<
    RustfmtManifest,
    RustfmtError,
>)
    ensures
        ({
            let lines = manifest_lines(content@);
            &&& lines.len() == 0 ==> r is Err && r->Err_0 is EmptyManifest
            &&& lines.len() > 0 && decimal_i32(lines.last()) is None ==> r is Err
                && r->Err_0 is NonNumericEdition && r->Err_0->NonNumericEdition_0@
                == lines.last()
            &&& lines.len() > 0 && decimal_i32(lines.last()) is Some && r is Ok ==> r->Ok_0.edition
                == decimal_i32(lines.last())->0 && r->Ok_0.sources.len() == lines.len() - 1
            &&& lines.len() > 0 && decimal_i32(lines.last()) is Some && r is Err ==> exists|i: int|
                0 <= i < lines.len() - 1 && refusal_of(
                    locator.repository@,
                    #[trigger] lines[i],
                    r->Err_0,
                )
        }),
{
    let entries = match parse_manifest_entries(content) {
        Ok(entries) => entries,
        Err(e) => return Err(e),
    };
    let ghost lines = manifest_lines(content@);
    proof {
        assert(lines.len() > 0);
        assert(decimal_i32(lines.last()) is Some);
        assert(texts(entries.sources@) == lines.drop_last());
        assert(entries.sources.len() == lines.len() - 1);
    }
    let sources = match locator.resolve_all(&entries.sources) {
        Ok(sources) => sources,
        Err(e) => {
            proof {
                let i = choose|i: int|
                    0 <= i < entries.sources.len() && refusal_of(
                        locator.repository@,
                        entries.sources[i]@,
                        e,
                    );
                assert(texts(entries.sources@)[i] == entries.sources[i]@);
                assert(lines.drop_last()[i] == lines[i]);
            }
            return Err(e);
        },
    };
    Ok(RustfmtManifest { edition: entries.edition, sources })
}

/// The platform family of the host, which decides how a list of paths in
/// one environment variable is separated.
#[derive(Clone, Copy, Debug, PartialEq, Eq, Structural)]
pub enum HostFamily {
    Windows,
    Unix,
}

/// The separator of a list of paths on hosts of family `f`.
pub open spec fn list_separator(f: HostFamily) -> char {
    match f {
        HostFamily::Windows => ';',
        HostFamily::Unix => ':',
    }
}

impl HostFamily {
    /// The separator of a list of paths on hosts of this family.
    pub fn path_list_separator(self) -> (c: char)
        ensures
            c == list_separator(self),
    {
        match self {
            HostFamily::Windows => ';',
            HostFamily::Unix => ':',
        }
    }
}

/// Resolves the manifests listed in `list`, the value of the variable that
/// names them (`None` where it is unset), through `locator`. Empty entries
/// of the list are skipped.
pub fn find_manifests(locator: &Locator, list: Option<&str>, host: HostFamily) -> (r: Result<
    Vec<PathBuf>,
    RustfmtError,
>)
    ensures
        list is None ==> r is Ok && r->Ok_0.len() == 0,
        list is Some && r is Ok ==> r->Ok_0.len() == non_empty_pieces(
            list->0@,
            list_separator(host),
        ).len(),
        list is Some && r is Err ==> exists|i: int|
            0 <= i < non_empty_pieces(list->0@, list_separator(host)).len() && refusal_of(
                locator.repository@,
                #[trigger] non_empty_pieces(list->0@, list_separator(host))[i],
                r->Err_0,
            ),
{
    match list {
        None => Ok(Vec::new()),
        Some(value) => {
            let entries = split_non_empty(value, host.path_list_separator());
            let r = locator.resolve_all(&entries);
            proof {
                if r is Err {
                    let i = choose|i: int|
                        0 <= i < entries.len() && refusal_of(
                            locator.repository@,
                            entries[i]@,
                            r->Err_0,
                        );
                    assert(texts(entries@)[i] == entries[i]@);
                }
            }
            r
        },
    }
}

} // verus!
