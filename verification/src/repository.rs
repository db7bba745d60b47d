//! An open checkout.

use crate::commit::{CommitCache, CommitDataView};
use crate::error::{FossilError, FossilErrorView};
use crate::git::RunHook;
use crate::info::{parse_fossil_info, FossilInfo, FossilInfoView};
use crate::path::{PathStyle, RepoPath};
use crate::unique_map::UniqueMap;
use vstd::prelude::*;
use vstd::string::*;

verus! {

// ---------------------------------------------------------------------------
// Finding the executable
// ---------------------------------------------------------------------------

/// Where the executable is usually installed on macOS.
pub open spec fn common_macos_paths() -> Seq<Seq<char>> {
    seq![
        "/opt/homebrew/bin/fossil"@,
        "/usr/local/bin/fossil"@,
        "/opt/local/bin/fossil"@,
        "/sw/bin/fossil"@,
    ]
}

/// Where the executable is usually installed on macOS.
pub fn common_macos_fossil_paths() -> (r: Vec<String>)
    ensures
        r.deep_view() == common_macos_paths(),
{
    crate::commands::four_args(
        "/opt/homebrew/bin/fossil",
        "/usr/local/bin/fossil",
        "/opt/local/bin/fossil",
        "/sw/bin/fossil",
    )
}

/// Where to look for the executable next.
#[derive(Debug)]
pub enum BinaryLookup {
    /// In the directories that were given.
    InSearchPaths,
    /// In the directories of the process.
    OnPath,
    /// At these paths, one after the other; a regular file is what is looked for.
    AtPaths(Vec<String>),
    /// Nowhere: there is none.
    Failed(FossilError),
}

/// Where to look for the executable next, as texts.
pub enum BinaryLookupView {
    InSearchPaths,
    OnPath,
    AtPaths(Seq<Seq<char>>),
    Failed(FossilErrorView),
}

impl DeepView for BinaryLookup {
    type V = BinaryLookupView;

    open spec fn deep_view(&self) -> BinaryLookupView {
        match *self {
            BinaryLookup::InSearchPaths => BinaryLookupView::InSearchPaths,
            BinaryLookup::OnPath => BinaryLookupView::OnPath,
            BinaryLookup::AtPaths(paths) => BinaryLookupView::AtPaths(paths.deep_view()),
            BinaryLookup::Failed(error) => BinaryLookupView::Failed(error.deep_view()),
        }
    }
}

/// Where to look first: search paths count only if there are any.
pub open spec fn first_lookup(search_paths: Option<Seq<char>>) -> BinaryLookupView {
    match search_paths {
        Some(paths) => if paths.len() > 0 {
            BinaryLookupView::InSearchPaths
        } else {
            BinaryLookupView::OnPath
        },
        None => BinaryLookupView::OnPath,
    }
}

/// Where to look when nothing was found.
pub open spec fn next_lookup(lookup: BinaryLookupView, macos: bool) -> BinaryLookupView {
    match lookup {
        BinaryLookupView::InSearchPaths => BinaryLookupView::OnPath,
        BinaryLookupView::OnPath => if macos {
            BinaryLookupView::AtPaths(common_macos_paths())
        } else {
            BinaryLookupView::Failed(FossilErrorView::BinaryNotFound)
        },
        BinaryLookupView::AtPaths(_) => BinaryLookupView::Failed(FossilErrorView::BinaryNotFound),
        BinaryLookupView::Failed(error) => BinaryLookupView::Failed(error),
    }
}

/// Begins to look for the executable. Go on with [`BinaryLookup::after_miss`]
/// while nothing is found.
pub fn resolve_fossil_binary(search_paths: Option<&str>) -> (r: BinaryLookup)
    ensures
        r.deep_view() == first_lookup(crate::remote::opt_output(search_paths)),
{
    match search_paths {
        Some(paths) => {
            if paths.unicode_len() > 0 {
                BinaryLookup::InSearchPaths
            } else {
                BinaryLookup::OnPath
            }
        },
        None => BinaryLookup::OnPath,
    }
}

impl BinaryLookup {
    /// Where to look when nothing was found.
    pub fn after_miss(self, macos: bool) -> (r: BinaryLookup)
        ensures
            r.deep_view() == next_lookup(self.deep_view(), macos),
    {
        match self {
            BinaryLookup::InSearchPaths => BinaryLookup::OnPath,
            BinaryLookup::OnPath => {
                if macos {
                    BinaryLookup::AtPaths(common_macos_fossil_paths())
                } else {
                    BinaryLookup::Failed(crate::error::fossil_binary_not_found_error())
                }
            },
            BinaryLookup::AtPaths(_) => BinaryLookup::Failed(
                crate::error::fossil_binary_not_found_error(),
            ),
            BinaryLookup::Failed(error) => BinaryLookup::Failed(error),
        }
    }
}

/// Law: whoever looks three times and finds nothing is told that there is no
/// executable.
pub proof fn law_lookup_ends(search_paths: Option<Seq<char>>, macos: bool)
    ensures
        next_lookup(next_lookup(next_lookup(first_lookup(search_paths), macos), macos), macos)
            == BinaryLookupView::Failed(FossilErrorView::BinaryNotFound),
{
}

// ---------------------------------------------------------------------------
// The repository
// ---------------------------------------------------------------------------

/// The kinds of repositories.
#[derive(Clone, Copy, Debug, PartialEq, Eq, Structural)]
pub enum RepositoryKind {
    Git,
    Fossil,
}

/// An open checkout, with what was loaded of it.
pub struct FossilRepository<P> {
    checkout_db_path: P,
    work_directory: P,
    fossil_binary_path: P,
    trusted: bool,
    cached_info: Option<FossilInfo>,
    cached_commit_data: CommitCache,
}

/// An open checkout, with what was loaded of it.
pub struct FossilRepositoryView<P> {
    pub checkout_db_path: P,
    pub work_directory: P,
    pub fossil_binary_path: P,
    pub trusted: bool,
    pub cached_info: Option<FossilInfoView>,
    pub cached_commit_data: Map<Seq<u8>, CommitDataView>,
}

impl<P> View for FossilRepository<P> {
    type V = FossilRepositoryView<P>;

    closed spec fn view(&self) -> FossilRepositoryView<P> {
        FossilRepositoryView {
            checkout_db_path: self.checkout_db_path,
            work_directory: self.work_directory,
            fossil_binary_path: self.fossil_binary_path,
            trusted: self.trusted,
            cached_info: self.cached_info.deep_view(),
            cached_commit_data: self.cached_commit_data@,
        }
    }
}

impl<P> FossilRepository<P> {
    /// Opens the checkout with the given database. `parent` is the directory that
    /// the database lies in, and `fossil_binary_path` the executable that was
    /// given or found. Nothing is loaded, and the checkout is not trusted yet.
    pub fn new(
        checkout_db_path: P,
        parent: Option<P>,
        fossil_binary_path: Result<P, FossilError>,
    ) -> (r: Result<FossilRepository<P>, FossilError>)
        ensures
            match r {
                Ok(repository) => parent is Some && fossil_binary_path is Ok && repository@ == (
                FossilRepositoryView {
                    checkout_db_path,
                    work_directory: parent->0,
                    fossil_binary_path: fossil_binary_path->Ok_0,
                    trusted: false,
                    cached_info: None,
                    cached_commit_data: Map::empty(),
                }),
                Err(error) => if parent is None {
                    error.deep_view() == FossilErrorView::NoCheckoutParent
                } else {
                    fossil_binary_path is Err && error == fossil_binary_path->Err_0
                },
            },
            r is Ok <==> parent is Some && fossil_binary_path is Ok,
    {
        let work_directory = match parent {
            Some(parent) => parent,
            None => return Err(FossilError::NoCheckoutParent),
        };
        let fossil_binary_path = match fossil_binary_path {
            Ok(path) => path,
            Err(error) => return Err(error),
        };
        Ok(
            FossilRepository {
                checkout_db_path,
                work_directory,
                fossil_binary_path,
                trusted: false,
                cached_info: None,
                cached_commit_data: UniqueMap::new(),
            },
        )
    }

    /// The kind of the repository.
    pub fn kind(&self) -> (r: RepositoryKind)
        ensures
            r == RepositoryKind::Fossil,
    {
        RepositoryKind::Fossil
    }

    /// The database of the checkout.
    pub fn path(&self) -> (r: &P)
        ensures
            *r == self@.checkout_db_path,
    {
        &self.checkout_db_path
    }

    /// The database of the checkout: there is no other repository behind it.
    pub fn main_repository_path(&self) -> (r: &P)
        ensures
            *r == self@.checkout_db_path,
    {
        &self.checkout_db_path
    }

    /// The root of the checkout.
    pub fn work_directory(&self) -> (r: &P)
        ensures
            *r == self@.work_directory,
    {
        &self.work_directory
    }

    /// The executable.
    pub fn fossil_binary(&self) -> (r: &P)
        ensures
            *r == self@.fossil_binary_path,
    {
        &self.fossil_binary_path
    }

    /// Says whether the checkout is trusted.
    pub fn set_trusted(&mut self, trusted: bool)
        ensures
            final(self)@ == (FossilRepositoryView { trusted, ..old(self)@ }),
    {
        self.trusted = trusted;
    }

    /// Whether the checkout is trusted.
    pub fn is_trusted(&self) -> (r: bool)
        ensures
            r == self@.trusted,
    {
        self.trusted
    }

    /// Takes in the output of `fossil info` and keeps what it says.
    pub fn info(&mut self, output: &str, style: PathStyle) -> (r: FossilInfo)
        ensures
            r.deep_view() == crate::info::checkout_info(output@, style),
            final(self)@ == (FossilRepositoryView {
                cached_info: Some(r.deep_view()),
                ..old(self)@
            }),
    {
        let info = parse_fossil_info(output, style);
        self.cached_info = Some(info.clone());
        info
    }

    /// What `fossil info` said last.
    pub fn cached_info(&self) -> (r: &Option<FossilInfo>)
        ensures
            r.deep_view() == self@.cached_info,
    {
        &self.cached_info
    }

    /// The check-ins that were loaded.
    pub fn cached_commit_data(&self) -> (r: &CommitCache)
        ensures
            r@ == self@.cached_commit_data,
    {
        &self.cached_commit_data
    }

    /// Loads one more check-in of the graph from the output of `fossil info` for
    /// it.
    pub fn add_graph_commit(
        &mut self,
        commits: &mut Vec<crate::timeline::InitialGraphCommitData>,
        hash: &str,
        output: &str,
    ) -> (r: Result<(), FossilError>)
        ensures
            match crate::timeline::graph_output(
                crate::timeline::GraphState {
                    commits: old(commits).deep_view(),
                    cache: old(self)@.cached_commit_data,
                },
                hash@,
                output@,
            ) {
                Ok(after) => r is Ok && final(commits).deep_view() == after.commits && final(self)@
                    == (FossilRepositoryView {
                    cached_commit_data: after.cache,
                    ..old(self)@
                }),
                Err(error) => r is Err && r->Err_0.deep_view() == error
                    && final(commits).deep_view() == old(commits).deep_view() && final(self)@
                    == old(self)@,
            },
    {
        crate::timeline::add_graph_commit(commits, &mut self.cached_commit_data, hash, output)
    }

    /// Reads a check-in from the output of `fossil info` for the digits of an id,
    /// and keeps it.
    pub fn read_commit_output(&mut self, id: &crate::oid::Oid, output: &str) -> (r: Result<
        crate::commit::CommitData,
        FossilError,
    >)
        ensures
            crate::error::result_view(r) == crate::commit::commit_data_for(
                crate::oid::oid_text(id@),
                output@,
            ),
            match r {
                Ok(data) => final(self)@ == (FossilRepositoryView {
                    cached_commit_data: old(self)@.cached_commit_data.insert(
                        data.sha@,
                        data.deep_view(),
                    ),
                    ..old(self)@
                }),
                Err(_) => final(self)@ == old(self)@,
            },
    {
        crate::details::read_commit_output(&mut self.cached_commit_data, id, output)
    }

    /// The branch that a repository begins with.
    pub fn default_branch(&self) -> (r: Option<String>)
        ensures
            r.deep_view() == Some("trunk"@),
    {
        Some("trunk".to_owned())
    }

    /// There is no index, so no file has a text in it.
    pub fn load_index_text(&self) -> (r: Option<String>)
        ensures
            r is None,
    {
        None
    }

    /// No merge leaves a message behind.
    pub fn merge_message(&self) -> (r: Option<String>)
        ensures
            r is None,
    {
        None
    }

    /// There are no templates for messages.
    pub fn load_commit_template(&self) -> (r: Option<String>)
        ensures
            r is None,
    {
        None
    }

    /// There are no trees, so none differ.
    pub fn diff_tree(&self) -> (r: Vec<RepoPath>)
        ensures
            r@.len() == 0,
    {
        Vec::new()
    }

    /// No check-in counts as pushed.
    pub fn check_for_pushed_commit(&self) -> (r: Vec<String>)
        ensures
            r@.len() == 0,
    {
        Vec::new()
    }

    /// A hook is never run and never fails.
    pub fn run_hook(&self, hook: RunHook) -> (r: Result<(), FossilError>)
        ensures
            r is Ok,
    {
        let _ = hook;
        Ok(())
    }
}

} // verus!
