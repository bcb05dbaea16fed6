//! The resolver of packaged applications: from a package directory to the
//! path of its icon file.
//!
//! The resolver is a state machine. It asks the caller whether a path
//! exists, for the text of the manifest, and for the files that match a
//! pattern, and decides from the answers. It tries in this order: the logo
//! that the manifest declares; the largest variant of that logo that is not
//! a high-contrast variant; the largest file of the package directory that
//! has one of the usual names of an icon.

use crate::error::IconError;
use crate::paths::{
    directory_of, extension_of, file_name_of, has_extension, join_path, joined, split_name,
    split_path, stem_of,
};
use crate::uwp_apps::{
    chosen_at, choice_model, extract_icon_path, is_themed, lemma_picked_in_turn,
    lemma_picked_is_largest, logo_of, models_of, pick_largest, picked, Candidate, CandidateModel,
    Choice, ChoiceModel,
};
use vstd::prelude::*;
use vstd::string::*;

verus! {

/// What the resolver waits for.
#[derive(Clone, Copy, Debug, PartialEq, Eq, Structural)]
pub enum ResolverPhase {
    /// For the answer whether the package directory exists.
    AwaitDirectory,
    /// For the answer whether the manifest exists.
    AwaitManifest,
    /// For the text of the manifest.
    AwaitManifestText,
    /// For the answer whether the declared logo exists.
    AwaitLogo,
    /// For the files that match the pattern of the logo's variants.
    AwaitVariants,
    /// For the files that match one of the patterns of the usual names.
    AwaitFuzzy,
    /// For nothing: the last action has been given.
    Finished,
}

/// The answer to a question, as the caller reports it.
#[derive(Debug)]
pub enum ResolverEvent {
    /// Whether the path exists.
    Exists { present: bool },
    /// The text of the file, or `None` where it could not be read.
    Text { content: Option<String> },
    /// The files that match the pattern, in the order in which the search
    /// found them, or `None` where the pattern was refused.
    Files { found: Option<Vec<Candidate>> },
}

/// An event with its text and its list as mathematical values.
pub enum ResolverEventModel {
    Exists { present: bool },
    Text { content: Option<Seq<char>> },
    Files { found: Option<Seq<CandidateModel>> },
}

impl View for ResolverEvent {
    type V = ResolverEventModel;

    open spec fn view(&self) -> ResolverEventModel {
        match *self {
            ResolverEvent::Exists { present } => ResolverEventModel::Exists { present },
            ResolverEvent::Text { content } => ResolverEventModel::Text {
                content: match content {
                    Some(text) => Some(text@),
                    None => None,
                },
            },
            ResolverEvent::Files { found } => ResolverEventModel::Files {
                found: match found {
                    Some(files) => Some(models_of(files@)),
                    None => None,
                },
            },
        }
    }
}

/// What the caller has to do next.
#[derive(Debug)]
pub enum ResolverAction {
    /// Say whether `path` exists.
    CheckExists { path: String },
    /// Read the text of the file at `path`.
    ReadText { path: String },
    /// List the files that match `pattern`, each with its kind and size.
    Search { pattern: String },
    /// Return `outcome`: the path of the icon file, or the failure.
    Finish { outcome: Result<String, IconError> },
}

/// An action with its strings as sequences of characters.
pub enum ResolverActionModel {
    CheckExists { path: Seq<char> },
    ReadText { path: Seq<char> },
    Search { pattern: Seq<char> },
    Finish { outcome: Result<Seq<char>, IconError> },
}

impl View for ResolverAction {
    type V = ResolverActionModel;

    open spec fn view(&self) -> ResolverActionModel {
        match *self {
            ResolverAction::CheckExists { path } => ResolverActionModel::CheckExists { path: path@ },
            ResolverAction::ReadText { path } => ResolverActionModel::ReadText { path: path@ },
            ResolverAction::Search { pattern } => ResolverActionModel::Search {
                pattern: pattern@,
            },
            ResolverAction::Finish { outcome } => ResolverActionModel::Finish {
                outcome: match outcome {
                    Ok(path) => Ok(path@),
                    Err(e) => Err(e),
                },
            },
        }
    }
}

/// The state of the resolver: what it waits for, the package directory, the
/// path of the declared logo once the manifest is read, and in the last
/// search the number of patterns done and the choice so far.
pub struct ResolverState {
    pub phase: ResolverPhase,
    pub directory: Seq<char>,
    pub logo: Seq<char>,
    pub round: nat,
    pub best: Option<ChoiceModel>,
}

/// The number of patterns of the last search: three names, each with two
/// extensions.
pub open spec fn fuzzy_rounds() -> nat {
    6
}

/// The path of the manifest of a package directory.
pub open spec fn manifest_path(directory: Seq<char>) -> Seq<char> {
    joined(directory, "AppxManifest.xml"@)
}

/// The pattern of the variants of a logo: in the logo's directory, the
/// files whose names begin with the logo's stem and end with a dot and the
/// logo's extension. There is none where the logo's file name has no
/// extension.
pub open spec fn variant_pattern(logo: Seq<char>) -> Option<Seq<char>> {
    let name = file_name_of(logo);
    if has_extension(name) {
        Some(directory_of(logo) + "/"@ + stem_of(name)->0 + "*."@ + extension_of(name)->0)
    } else {
        None
    }
}

/// The file name that the last search looks for in round `round`.
pub open spec fn fuzzy_name(round: nat) -> Seq<char> {
    if round / 2 == 0 {
        "logo"@
    } else if round / 2 == 1 {
        "icon"@
    } else {
        "DesktopShortcut"@
    }
}

/// The extension that the last search looks for in round `round`.
pub open spec fn fuzzy_extension(round: nat) -> Seq<char> {
    if round % 2 == 0 {
        "png"@
    } else {
        "ico"@
    }
}

/// The pattern of round `round` of the last search: the files of that name
/// and extension anywhere under the package directory.
pub open spec fn fuzzy_pattern(directory: Seq<char>, round: nat) -> Seq<char> {
    directory + "/**/"@ + fuzzy_name(round) + "."@ + fuzzy_extension(round)
}

/// The last step: the resolver gives its outcome and forgets its choice.
pub open spec fn resolver_finish(s: ResolverState, outcome: Result<Seq<char>, IconError>) -> (
    ResolverState,
    ResolverActionModel,
) {
    (
        ResolverState { phase: ResolverPhase::Finished, best: None, ..s },
        ResolverActionModel::Finish { outcome },
    )
}

/// The begin of the last search.
pub open spec fn fuzzy_start(s: ResolverState) -> (ResolverState, ResolverActionModel) {
    (
        ResolverState { phase: ResolverPhase::AwaitFuzzy, round: 0, best: None, ..s },
        ResolverActionModel::Search { pattern: fuzzy_pattern(s.directory, 0) },
    )
}

/// The outcome of the last search: the path of the choice, or the failure
/// that there is none.
pub open spec fn fuzzy_outcome(best: Option<ChoiceModel>) -> Result<Seq<char>, IconError> {
    match best {
        Some(choice) => Ok(choice.path),
        None => Err(IconError::NoIconInPackage),
    }
}

/// The state in which the resolver starts on a package directory, and its
/// first action.
pub open spec fn resolver_start(directory: Seq<char>) -> (ResolverState, ResolverActionModel) {
    (
        ResolverState {
            phase: ResolverPhase::AwaitDirectory,
            directory,
            logo: Seq::empty(),
            round: 0,
            best: None,
        },
        ResolverActionModel::CheckExists { path: directory },
    )
}

/// The state that follows `s` on the event `e`, and the action to take.
pub open spec fn resolver_next(s: ResolverState, e: ResolverEventModel) -> (
    ResolverState,
    ResolverActionModel,
) {
    match (s.phase, e) {
        (ResolverPhase::AwaitDirectory, ResolverEventModel::Exists { present }) => {
            if present {
                (
                    ResolverState { phase: ResolverPhase::AwaitManifest, ..s },
                    ResolverActionModel::CheckExists { path: manifest_path(s.directory) },
                )
            } else {
                resolver_finish(s, Err(IconError::PackageNotFound))
            }
        },
        (ResolverPhase::AwaitManifest, ResolverEventModel::Exists { present }) => {
            if present {
                (
                    ResolverState { phase: ResolverPhase::AwaitManifestText, ..s },
                    ResolverActionModel::ReadText { path: manifest_path(s.directory) },
                )
            } else {
                fuzzy_start(s)
            }
        },
        (ResolverPhase::AwaitManifestText, ResolverEventModel::Text { content }) => {
            match content {
                None => resolver_finish(s, Err(IconError::ManifestUnreadable)),
                Some(text) => match logo_of(text) {
                    None => resolver_finish(s, Err(IconError::LogoNotInManifest)),
                    Some(relative) => (
                        ResolverState {
                            phase: ResolverPhase::AwaitLogo,
                            logo: joined(s.directory, relative),
                            ..s
                        },
                        ResolverActionModel::CheckExists { path: joined(s.directory, relative) },
                    ),
                },
            }
        },
        (ResolverPhase::AwaitLogo, ResolverEventModel::Exists { present }) => {
            if present {
                resolver_finish(s, Ok(s.logo))
            } else {
                match variant_pattern(s.logo) {
                    None => resolver_finish(s, Err(IconError::LogoPathIncomplete)),
                    Some(pattern) => (
                        ResolverState { phase: ResolverPhase::AwaitVariants, ..s },
                        ResolverActionModel::Search { pattern },
                    ),
                }
            }
        },
        (ResolverPhase::AwaitVariants, ResolverEventModel::Files { found }) => {
            match found {
                None => resolver_finish(s, Err(IconError::PatternRefused)),
                Some(files) => match picked(None, files, true) {
                    Err(e) => resolver_finish(s, Err(e)),
                    Ok(Some(choice)) => resolver_finish(s, Ok(choice.path)),
                    Ok(None) => fuzzy_start(s),
                },
            }
        },
        (ResolverPhase::AwaitFuzzy, ResolverEventModel::Files { found }) => {
            match found {
                None => resolver_finish(s, Err(IconError::PatternRefused)),
                Some(files) => match picked(s.best, files, false) {
                    Err(e) => resolver_finish(s, Err(e)),
                    Ok(best) => if s.round + 1 < fuzzy_rounds() {
                        (
                            ResolverState { round: s.round + 1, best, ..s },
                            ResolverActionModel::Search {
                                pattern: fuzzy_pattern(s.directory, s.round + 1),
                            },
                        )
                    } else {
                        resolver_finish(s, fuzzy_outcome(best))
                    },
                },
            }
        },
        _ => resolver_finish(s, Err(IconError::UnexpectedEvent)),
    }
}

/// Makes the pattern of the variants of a logo.
pub fn variant_pattern_of(logo: &str) -> (r: Option<String>)
    ensures
        r is Some <==> variant_pattern(logo@) is Some,
        r matches Some(pattern) ==> variant_pattern(logo@) == Some(pattern@),
{
    let (directory, name) = split_path(logo);
    match split_name(name.as_str()) {
        Some((stem, Some(extension))) => {
            let mut pattern = directory;
            pattern.append("/");
            pattern.append(stem.as_str());
            pattern.append("*.");
            pattern.append(extension.as_str());
            Some(pattern)
        },
        _ => None,
    }
}

/// Makes the pattern of round `round` of the last search.
pub fn fuzzy_pattern_of(directory: &str, round: u8) -> (pattern: String)
    ensures
        pattern@ == fuzzy_pattern(directory@, round as nat),
{
    let mut pattern = String::from_str(directory);
    pattern.append("/**/");
    if round / 2 == 0 {
        pattern.append("logo");
    } else if round / 2 == 1 {
        pattern.append("icon");
    } else {
        pattern.append("DesktopShortcut");
    }
    pattern.append(".");
    if round % 2 == 0 {
        pattern.append("png");
    } else {
        pattern.append("ico");
    }
    pattern
}

/// The resolver of one package directory.
#[derive(Debug)]
pub struct Resolver {
    phase: ResolverPhase,
    directory: String,
    logo: String,
    round: u8,
    best: Option<Choice>,
}

impl View for Resolver {
    type V = ResolverState;

    closed spec fn view(&self) -> ResolverState {
        ResolverState {
            phase: self.phase,
            directory: self.directory@,
            logo: self.logo@,
            round: self.round as nat,
            best: choice_model(self.best),
        }
    }
}

impl Resolver {
    #[verifier::type_invariant]
    spec fn valid(self) -> bool {
        self.round < fuzzy_rounds()
    }

    /// Says how to begin the search for the icon of the package in
    /// `directory`.
    pub fn start(directory: &str) -> (r: (Resolver, ResolverAction))
        ensures
            (r.0@, r.1@) == resolver_start(directory@),
    {
        let machine = Resolver {
            phase: ResolverPhase::AwaitDirectory,
            directory: directory.to_owned(),
            logo: String::new(),
            round: 0,
            best: None,
        };
        (machine, ResolverAction::CheckExists { path: directory.to_owned() })
    }

    /// Ends the work with `outcome`.
    fn conclude(self, outcome: Result<String, IconError>) -> (r: (Resolver, ResolverAction))
        ensures
            r.0@ == (ResolverState { phase: ResolverPhase::Finished, best: None, ..self@ }),
            r.1@ == (ResolverActionModel::Finish {
                outcome: match outcome {
                    Ok(path) => Ok(path@),
                    Err(e) => Err(e),
                },
            }),
    {
        proof {
            use_type_invariant(&self);
        }
        let machine = Resolver {
            phase: ResolverPhase::Finished,
            directory: self.directory,
            logo: self.logo,
            round: self.round,
            best: None,
        };
        (machine, ResolverAction::Finish { outcome })
    }

    /// Begins the last search.
    fn begin_fuzzy(self) -> (r: (Resolver, ResolverAction))
        ensures
            (r.0@, r.1@) == fuzzy_start(self@),
    {
        let pattern = fuzzy_pattern_of(self.directory.as_str(), 0);
        let machine = Resolver {
            phase: ResolverPhase::AwaitFuzzy,
            directory: self.directory,
            logo: self.logo,
            round: 0,
            best: None,
        };
        (machine, ResolverAction::Search { pattern })
    }

    /// Takes the answer to the question that the last action asked, and says
    /// what to do next. An event that the resolver does not wait for ends
    /// the work.
    pub fn step(self, event: ResolverEvent) -> (r: (Resolver, ResolverAction))
        ensures
            (r.0@, r.1@) == resolver_next(self@, event@),
    {
        proof {
            use_type_invariant(&self);
        }
        match event {
            ResolverEvent::Exists { present } => {
                if self.phase == ResolverPhase::AwaitDirectory {
                    if present {
                        let path = join_path(self.directory.as_str(), "AppxManifest.xml");
                        let machine = Resolver {
                            phase: ResolverPhase::AwaitManifest,
                            directory: self.directory,
                            logo: self.logo,
                            round: self.round,
                            best: self.best,
                        };
                        (machine, ResolverAction::CheckExists { path })
                    } else {
                        self.conclude(Err(IconError::PackageNotFound))
                    }
                } else if self.phase == ResolverPhase::AwaitManifest {
                    if present {
                        let path = join_path(self.directory.as_str(), "AppxManifest.xml");
                        let machine = Resolver {
                            phase: ResolverPhase::AwaitManifestText,
                            directory: self.directory,
                            logo: self.logo,
                            round: self.round,
                            best: self.best,
                        };
                        (machine, ResolverAction::ReadText { path })
                    } else {
                        self.begin_fuzzy()
                    }
                } else if self.phase == ResolverPhase::AwaitLogo {
                    if present {
                        let path = self.logo.clone();
                        self.conclude(Ok(path))
                    } else {
                        match variant_pattern_of(self.logo.as_str()) {
                            None => self.conclude(Err(IconError::LogoPathIncomplete)),
                            Some(pattern) => {
                                let machine = Resolver {
                                    phase: ResolverPhase::AwaitVariants,
                                    directory: self.directory,
                                    logo: self.logo,
                                    round: self.round,
                                    best: self.best,
                                };
                                (machine, ResolverAction::Search { pattern })
                            },
                        }
                    }
                } else {
                    self.conclude(Err(IconError::UnexpectedEvent))
                }
            },
            ResolverEvent::Text { content } => {
                if self.phase == ResolverPhase::AwaitManifestText {
                    match content {
                        None => self.conclude(Err(IconError::ManifestUnreadable)),
                        Some(text) => match extract_icon_path(text.as_str()) {
                            Err(e) => self.conclude(Err(e)),
                            Ok(relative) => {
                                let logo = join_path(self.directory.as_str(), relative.as_str());
                                let path = logo.clone();
                                let machine = Resolver {
                                    phase: ResolverPhase::AwaitLogo,
                                    directory: self.directory,
                                    logo,
                                    round: self.round,
                                    best: self.best,
                                };
                                (machine, ResolverAction::CheckExists { path })
                            },
                        },
                    }
                } else {
                    self.conclude(Err(IconError::UnexpectedEvent))
                }
            },
            ResolverEvent::Files { found } => {
                if self.phase == ResolverPhase::AwaitVariants {
                    match found {
                        None => self.conclude(Err(IconError::PatternRefused)),
                        Some(files) => match pick_largest(None, &files, true) {
                            Err(e) => self.conclude(Err(e)),
                            Ok(Some(choice)) => self.conclude(Ok(choice.path)),
                            Ok(None) => self.begin_fuzzy(),
                        },
                    }
                } else if self.phase == ResolverPhase::AwaitFuzzy {
                    match found {
                        None => self.conclude(Err(IconError::PatternRefused)),
                        Some(files) => {
                            let Resolver { phase, directory, logo, round, best } = self;
                            match pick_largest(best, &files, false) {
                                Err(e) => {
                                    let machine = Resolver {
                                        phase: ResolverPhase::Finished,
                                        directory,
                                        logo,
                                        round,
                                        best: None,
                                    };
                                    (machine, ResolverAction::Finish { outcome: Err(e) })
                                },
                                Ok(best) => {
                                    if round + 1 < 6 {
                                        let pattern = fuzzy_pattern_of(directory.as_str(), round + 1);
                                        let machine = Resolver {
                                            phase,
                                            directory,
                                            logo,
                                            round: round + 1,
                                            best,
                                        };
                                        (machine, ResolverAction::Search { pattern })
                                    } else {
                                        let outcome = match best {
                                            Some(choice) => Ok(choice.path),
                                            None => Err(IconError::NoIconInPackage),
                                        };
                                        let machine = Resolver {
                                            phase: ResolverPhase::Finished,
                                            directory,
                                            logo,
                                            round,
                                            best: None,
                                        };
                                        (machine, ResolverAction::Finish { outcome })
                                    }
                                },
                            }
                        },
                    }
                } else {
                    self.conclude(Err(IconError::UnexpectedEvent))
                }
            },
        }
    }
}

/// Where the declared logo does not exist, the files that match its pattern
/// decide before the last search is begun: the resolver gives the largest
/// of them that is a regular file and no high-contrast variant, and never a
/// high-contrast variant. Only where no file qualifies it begins the last
/// search.
pub proof fn lemma_variants_come_first(s: ResolverState, files: Seq<CandidateModel>)
    requires
        s.phase == ResolverPhase::AwaitVariants,
    ensures
        ({
            let (t, a) = resolver_next(s, ResolverEventModel::Files { found: Some(files) });
            match picked(None, files, true) {
                Ok(Some(choice)) => {
                    &&& a == (ResolverActionModel::Finish { outcome: Ok(choice.path) })
                    &&& !is_themed(choice.path)
                    &&& exists|i: int| chosen_at(files, true, choice, i)
                },
                Ok(None) => (t, a) == fuzzy_start(s),
                Err(e) => a == (ResolverActionModel::Finish { outcome: Err(e) }),
            }
        }),
{
    lemma_picked_is_largest(files, true);
    if let Ok(Some(choice)) = picked(None, files, true) {
        let i = choose|i: int| chosen_at(files, true, choice, i);
        assert(chosen_at(files, true, picked(None, files, true)->Ok_0->Some_0, i));
    }
}

/// In each round of the last search the resolver's choice is the choice
/// among all the files that the rounds have found so far, taken in order:
/// after the last round it gives the largest regular file among them, the
/// last of the largest, and fails only where there is none.
pub proof fn lemma_fuzzy_round(
    s: ResolverState,
    seen: Seq<CandidateModel>,
    files: Seq<CandidateModel>,
)
    requires
        s.phase == ResolverPhase::AwaitFuzzy,
        picked(None, seen, false) == Ok::<Option<ChoiceModel>, IconError>(s.best),
    ensures
        ({
            let (t, a) = resolver_next(s, ResolverEventModel::Files { found: Some(files) });
            match picked(None, seen + files, false) {
                Err(e) => a == (ResolverActionModel::Finish { outcome: Err(e) }),
                Ok(best) => if s.round + 1 < fuzzy_rounds() {
                    &&& t.phase == ResolverPhase::AwaitFuzzy
                    &&& t.round == s.round + 1
                    &&& t.best == best
                    &&& a == (ResolverActionModel::Search {
                        pattern: fuzzy_pattern(s.directory, s.round + 1),
                    })
                } else {
                    a == (ResolverActionModel::Finish { outcome: fuzzy_outcome(best) })
                },
            }
        }),
{
    lemma_picked_in_turn(None, seen, files, false);
}

} // verus!
