//! Icons of packaged applications: the logo that the manifest declares, and
//! the choice among the files that a search of the package directory found.

use crate::error::IconError;
use crate::paths::{file_name_of, split_name, split_path, stem_of};
use crate::text::{
    chars_of, contains, contains_chars, find, first_occurrence, lemma_first_occurrence, trim_bounds,
    trimmed,
};
use vstd::prelude::*;
use vstd::string::*;

verus! {

/// The tag that opens the logo element of a manifest.
pub open spec fn open_tag() -> Seq<char> {
    "<Logo>"@
}

/// The tag that closes the logo element of a manifest.
pub open spec fn close_tag() -> Seq<char> {
    "</Logo>"@
}

/// The logo path that a manifest declares: what stands between the first
/// opening tag and the first closing tag, without the white space around it.
/// There is none where one of the tags is missing, or where the first
/// closing tag begins before the first opening tag has ended.
pub open spec fn logo_of(manifest: Seq<char>) -> Option<Seq<char>> {
    match (first_occurrence(manifest, open_tag()), first_occurrence(manifest, close_tag())) {
        (Some(open), Some(close)) => if open + open_tag().len() <= close {
            Some(trimmed(manifest.subrange(open + open_tag().len(), close)))
        } else {
            None
        },
        _ => None,
    }
}

/// Reads the logo path out of the text of a manifest.
pub fn extract_icon_path(manifest_content: &str) -> (r: Result<String, IconError>)
    ensures
        match r {
            Ok(path) => logo_of(manifest_content@) == Some(path@),
            Err(e) => e == IconError::LogoNotInManifest && logo_of(manifest_content@) is None,
        },
{
    let chars = chars_of(manifest_content);
    let open_chars = chars_of("<Logo>");
    let close_chars = chars_of("</Logo>");
    proof {
        lemma_first_occurrence(manifest_content@, open_tag());
        lemma_first_occurrence(manifest_content@, close_tag());
    }
    let open: usize = match find(chars.as_slice(), open_chars.as_slice()) {
        Some(open) => open,
        None => {
            return Err(IconError::LogoNotInManifest);
        },
    };
    let close: usize = match find(chars.as_slice(), close_chars.as_slice()) {
        Some(close) => close,
        None => {
            return Err(IconError::LogoNotInManifest);
        },
    };
    let width: usize = open_chars.len();
    assert(open + width <= chars.len());
    let start: usize = open + width;
    if start > close {
        return Err(IconError::LogoNotInManifest);
    }
    let inner = vstd::slice::slice_subrange(chars.as_slice(), start, close);
    let (from, to) = trim_bounds(inner);
    assert(manifest_content@.subrange(start as int, close as int).subrange(from as int, to as int)
        =~= manifest_content@.subrange(start + from, start + to));
    Ok(manifest_content.substring_char(start + from, start + to).to_owned())
}

/// The characters of a string in lower case, as the Unicode character
/// database maps them.
pub uninterp spec fn lowercase_of(s: Seq<char>) -> Seq<char>;

/// Calls `str::to_lowercase` of the standard library, which returns the
/// string in lower case as the Unicode character database maps it. The
/// result is a function of the string alone; it is not stated here, it has
/// the name `lowercase_of`.
#[verifier::external_body]
fn to_lowercase(s: &str) -> (lowered: String)
    ensures
        lowered@ == lowercase_of(s@),
{
    s.to_lowercase()
}

/// Whether a file stem, given in lower case, marks a high-contrast variant.
pub open spec fn has_theme_marker(lowered: Seq<char>) -> bool {
    contains(lowered, "contrast-white"@) || contains(lowered, "contrast-black"@)
}

/// Tests whether a file stem, given in lower case, marks a high-contrast
/// variant.
pub fn is_theme_variant(lowered: &str) -> (b: bool)
    ensures
        b == has_theme_marker(lowered@),
{
    let chars = chars_of(lowered);
    let white = chars_of("contrast-white");
    let black = chars_of("contrast-black");
    contains_chars(chars.as_slice(), white.as_slice()) || contains_chars(
        chars.as_slice(),
        black.as_slice(),
    )
}

/// The stem of the file that a path names, empty where it names none.
pub open spec fn stem_of_path(path: Seq<char>) -> Seq<char> {
    match stem_of(file_name_of(path)) {
        Some(stem) => stem,
        None => Seq::empty(),
    }
}

/// Whether a path names a high-contrast variant: the stem of its file, in
/// lower case, holds a theme marker.
pub open spec fn is_themed(path: Seq<char>) -> bool {
    has_theme_marker(lowercase_of(stem_of_path(path)))
}

/// Tests whether a path names a high-contrast variant, whatever the case of
/// its letters.
pub fn path_is_themed(path: &str) -> (b: bool)
    ensures
        b == is_themed(path@),
{
    let (_, name) = split_path(path);
    let stem = match split_name(name.as_str()) {
        Some((stem, _)) => stem,
        None => String::new(),
    };
    let lowered = to_lowercase(stem.as_str());
    is_theme_variant(lowered.as_str())
}

/// A file that a search found: its path, whether it is a regular file, and
/// its size in bytes where that could be read.
#[derive(Clone, Debug, PartialEq, Eq)]
pub struct Candidate {
    pub path: String,
    pub is_file: bool,
    pub size: Option<u64>,
}

/// A candidate with its path as a sequence of characters.
pub struct CandidateModel {
    pub path: Seq<char>,
    pub is_file: bool,
    pub size: Option<u64>,
}

impl View for Candidate {
    type V = CandidateModel;

    open spec fn view(&self) -> CandidateModel {
        CandidateModel { path: self.path@, is_file: self.is_file, size: self.size }
    }
}

/// The candidates of a list, as mathematical values.
pub open spec fn models_of(candidates: Seq<Candidate>) -> Seq<CandidateModel> {
    candidates.map_values(|c: Candidate| c@)
}

/// A chosen file: its path and its size.
#[derive(Debug)]
pub struct Choice {
    pub path: String,
    pub size: u64,
}

/// A choice with its path as a sequence of characters.
pub struct ChoiceModel {
    pub path: Seq<char>,
    pub size: u64,
}

impl View for Choice {
    type V = ChoiceModel;

    open spec fn view(&self) -> ChoiceModel {
        ChoiceModel { path: self.path@, size: self.size }
    }
}

/// The view of a choice that may be missing.
pub open spec fn choice_model(choice: Option<Choice>) -> Option<ChoiceModel> {
    match choice {
        Some(c) => Some(c@),
        None => None,
    }
}

/// Whether a candidate can be chosen: it is a regular file and, where only
/// variants of a logo are looked for, not a high-contrast variant.
pub open spec fn qualifies(c: CandidateModel, variants: bool) -> bool {
    c.is_file && (variants ==> !is_themed(c.path))
}

/// The choice after one more file: the file, unless the choice so far is
/// larger. Of two files of one size the later one is chosen.
pub open spec fn better(best: Option<ChoiceModel>, path: Seq<char>, size: u64) -> Option<
    ChoiceModel,
> {
    match best {
        Some(b) => if size < b.size {
            best
        } else {
            Some(ChoiceModel { path, size })
        },
        None => Some(ChoiceModel { path, size }),
    }
}

/// The choice among `best` and the candidates, taken in order: the largest
/// of those that qualify. It fails where the size of one that qualifies is
/// not known.
pub open spec fn picked(best: Option<ChoiceModel>, candidates: Seq<CandidateModel>, variants: bool) -> Result<
    Option<ChoiceModel>,
    IconError,
>
    decreases candidates.len(),
{
    if candidates.len() == 0 {
        Ok(best)
    } else {
        match picked(best, candidates.drop_last(), variants) {
            Err(e) => Err(e),
            Ok(b) => {
                let c = candidates.last();
                if !qualifies(c, variants) {
                    Ok(b)
                } else {
                    match c.size {
                        None => Err(IconError::FileSizeUnavailable),
                        Some(size) => Ok(better(b, c.path, size)),
                    }
                }
            },
        }
    }
}

/// Chooses among `best` and the candidates, taken in order, the largest of
/// those that qualify.
pub fn pick_largest(best: Option<Choice>, candidates: &Vec<Candidate>, variants: bool) -> (r: Result<
    Option<Choice>,
    IconError,
>)
    ensures
        match r {
            Ok(choice) => picked(choice_model(best), models_of(candidates@), variants) == Ok::<
                Option<ChoiceModel>,
                IconError,
            >(choice_model(choice)),
            Err(e) => picked(choice_model(best), models_of(candidates@), variants) == Err::<
                Option<ChoiceModel>,
                IconError,
            >(e),
        },
{
    let ghost first = choice_model(best);
    let ghost all = models_of(candidates@);
    let mut current = best;
    let mut i: usize = 0;
    assert(all.take(0) =~= Seq::<CandidateModel>::empty());
    while i < candidates.len()
        invariant
            i <= candidates.len(),
            all == models_of(candidates@),
            first == choice_model(best),
            picked(first, all.take(i as int), variants) == Ok::<Option<ChoiceModel>, IconError>(
                choice_model(current),
            ),
        decreases candidates.len() - i,
    {
        let candidate = &candidates[i];
        proof {
            assert(all.take(i + 1).drop_last() =~= all.take(i as int));
            assert(all.take(i + 1).last() == candidate@);
        }
        if candidate.is_file && !(variants && path_is_themed(candidate.path.as_str())) {
            match candidate.size {
                None => {
                    proof {
                        assert(qualifies(candidate@, variants));
                        assert(picked(first, all.take(i + 1), variants) == Err::<
                            Option<ChoiceModel>,
                            IconError,
                        >(IconError::FileSizeUnavailable));
                        lemma_picked_failure_stays(first, all, i + 1, variants);
                    }
                    return Err(IconError::FileSizeUnavailable);
                },
                Some(size) => {
                    let replace = match &current {
                        Some(b) => size >= b.size,
                        None => true,
                    };
                    if replace {
                        current = Some(Choice { path: candidate.path.clone(), size });
                    }
                },
            }
        }
        i += 1;
    }
    assert(all.take(i as int) =~= all);
    Ok(current)
}

/// Once the choice has failed on the first `k` candidates it fails on all.
proof fn lemma_picked_failure_stays(
    best: Option<ChoiceModel>,
    candidates: Seq<CandidateModel>,
    k: int,
    variants: bool,
)
    requires
        0 <= k <= candidates.len(),
        picked(best, candidates.take(k), variants) is Err,
    ensures
        picked(best, candidates, variants) == picked(best, candidates.take(k), variants),
    decreases candidates.len() - k,
{
    if k == candidates.len() {
        assert(candidates.take(k) =~= candidates);
    } else {
        assert(candidates.take(k + 1).drop_last() =~= candidates.take(k));
        lemma_picked_failure_stays(best, candidates, k + 1, variants);
    }
}

/// Whether `choice` is the candidate at `i`, which qualifies, and is the
/// largest of those that qualify, and the last of the largest.
pub open spec fn chosen_at(
    candidates: Seq<CandidateModel>,
    variants: bool,
    choice: ChoiceModel,
    i: int,
) -> bool {
    &&& 0 <= i < candidates.len()
    &&& qualifies(candidates[i], variants)
    &&& candidates[i].path == choice.path
    &&& candidates[i].size == Some(choice.size)
    &&& forall|j: int|
        0 <= j < candidates.len() && qualifies(#[trigger] candidates[j], variants)
            ==> candidates[j].size is Some && candidates[j].size->0 <= choice.size
    &&& forall|j: int|
        i < j < candidates.len() && qualifies(#[trigger] candidates[j], variants)
            ==> candidates[j].size->0 < choice.size
}

/// Whether the size of a candidate that qualifies is not known.
pub open spec fn lacks_size(candidates: Seq<CandidateModel>, variants: bool, i: int) -> bool {
    &&& 0 <= i < candidates.len()
    &&& qualifies(candidates[i], variants)
    &&& candidates[i].size is None
}

/// Whether `result` is what the choice among the candidates has to be: the
/// last of the largest that qualify; nothing, where none qualifies; a
/// failure, where the size of one that qualifies is not known.
pub open spec fn describes_choice(
    candidates: Seq<CandidateModel>,
    variants: bool,
    result: Result<Option<ChoiceModel>, IconError>,
) -> bool {
    match result {
        Ok(Some(choice)) => exists|i: int| chosen_at(candidates, variants, choice, i),
        Ok(None) => forall|j: int|
            0 <= j < candidates.len() ==> !qualifies(#[trigger] candidates[j], variants),
        Err(e) => e == IconError::FileSizeUnavailable && exists|i: int|
            lacks_size(candidates, variants, i),
    }
}

/// The choice among candidates is one of them that qualifies: a regular
/// file, and where variants of a logo are looked for never a high-contrast
/// variant. None that qualifies is larger, and none that comes later is as
/// large. There is no choice only where no candidate qualifies, and the
/// choice fails only where the size of one that qualifies is not known.
pub proof fn lemma_picked_is_largest(candidates: Seq<CandidateModel>, variants: bool)
    ensures
        describes_choice(candidates, variants, picked(None, candidates, variants)),
    decreases candidates.len(),
{
    if candidates.len() > 0 {
        let before = candidates.drop_last();
        let c = candidates.last();
        let last = candidates.len() - 1;
        lemma_picked_is_largest(before, variants);
        let result = picked(None, candidates, variants);
        assert(result == match picked(None, before, variants) {
            Err(e) => Err(e),
            Ok(b) => if !qualifies(c, variants) {
                Ok(b)
            } else {
                match c.size {
                    None => Err(IconError::FileSizeUnavailable),
                    Some(size) => Ok(better(b, c.path, size)),
                }
            },
        });
        match picked(None, before, variants) {
            Err(e) => {
                let i = choose|i: int| lacks_size(before, variants, i);
                assert(lacks_size(candidates, variants, i));
            },
            Ok(None) => {
                if qualifies(c, variants) {
                    match c.size {
                        None => {
                            assert(lacks_size(candidates, variants, last));
                        },
                        Some(size) => {
                            let choice = ChoiceModel { path: c.path, size };
                            assert forall|j: int|
                                0 <= j < candidates.len() && qualifies(
                                    #[trigger] candidates[j],
                                    variants,
                                ) implies candidates[j].size is Some && candidates[j].size->0
                                <= choice.size by {
                                if j < last {
                                    assert(before[j] == candidates[j]);
                                }
                            }
                            assert(result == Ok::<Option<ChoiceModel>, IconError>(Some(choice)));
                            assert(chosen_at(candidates, variants, result->Ok_0->Some_0, last));
                        },
                    }
                } else {
                    assert forall|j: int| 0 <= j < candidates.len() implies !qualifies(
                        #[trigger] candidates[j],
                        variants,
                    ) by {
                        if j < last {
                            assert(before[j] == candidates[j]);
                        }
                    }
                }
            },
            Ok(Some(b)) => {
                let i = choose|i: int| chosen_at(before, variants, b, i);
                if qualifies(c, variants) {
                    match c.size {
                        None => {
                            assert(lacks_size(candidates, variants, last));
                        },
                        Some(size) => {
                            if size < b.size {
                                assert forall|j: int|
                                    0 <= j < candidates.len() && qualifies(
                                        #[trigger] candidates[j],
                                        variants,
                                    ) implies candidates[j].size is Some
                                    && candidates[j].size->0 <= b.size by {
                                    if j < last {
                                        assert(before[j] == candidates[j]);
                                    }
                                }
                                assert forall|j: int|
                                    i < j < candidates.len() && qualifies(
                                        #[trigger] candidates[j],
                                        variants,
                                    ) implies candidates[j].size->0 < b.size by {
                                    if j < last {
                                        assert(before[j] == candidates[j]);
                                    }
                                }
                                assert(chosen_at(candidates, variants, b, i));
                            } else {
                                let choice = ChoiceModel { path: c.path, size };
                                assert forall|j: int|
                                    0 <= j < candidates.len() && qualifies(
                                        #[trigger] candidates[j],
                                        variants,
                                    ) implies candidates[j].size is Some
                                    && candidates[j].size->0 <= choice.size by {
                                    if j < last {
                                        assert(before[j] == candidates[j]);
                                    }
                                }
                            assert(result == Ok::<Option<ChoiceModel>, IconError>(Some(choice)));
                            assert(chosen_at(candidates, variants, result->Ok_0->Some_0, last));
                            }
                        },
                    }
                } else {
                    assert forall|j: int|
                        0 <= j < candidates.len() && qualifies(
                            #[trigger] candidates[j],
                            variants,
                        ) implies candidates[j].size is Some && candidates[j].size->0
                        <= b.size by {
                        if j < last {
                            assert(before[j] == candidates[j]);
                        }
                    }
                    assert forall|j: int|
                        i < j < candidates.len() && qualifies(
                            #[trigger] candidates[j],
                            variants,
                        ) implies candidates[j].size->0 < b.size by {
                        if j < last {
                            assert(before[j] == candidates[j]);
                        }
                    }
                    assert(chosen_at(candidates, variants, b, i));
                }
            },
        }
    }
}

/// Choosing among one list and then, from that choice, among a second list
/// is choosing among the two lists one after the other.
pub proof fn lemma_picked_in_turn(
    best: Option<ChoiceModel>,
    first: Seq<CandidateModel>,
    second: Seq<CandidateModel>,
    variants: bool,
)
    ensures
        picked(best, first + second, variants) == match picked(best, first, variants) {
            Ok(b) => picked(b, second, variants),
            Err(e) => Err(e),
        },
    decreases second.len(),
{
    if second.len() == 0 {
        assert(first + second =~= first);
    } else {
        assert((first + second).drop_last() =~= first + second.drop_last());
        assert((first + second).last() == second.last());
        lemma_picked_in_turn(best, first, second.drop_last(), variants);
    }
}

} // verus!
