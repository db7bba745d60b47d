//! Laws of setting up checkouts, of finding the executable and of errors.

use crate::error::{error_message, FossilErrorView};
use crate::laws::text::{is_blank, is_tight};
use crate::repository::{first_lookup, next_lookup, BinaryLookupView};
use crate::setup::{
    answer_choice, checkout_name, chosen, clone_plan, database_name, directory_prompt, error_title,
    failure_text, file_prompt, init_args, modal_action, name_or_default, open_args, open_toast,
    repository_title, ClonePlanView, ModalActionView, ModalEvent, OpenCheckout, SetupArgView,
    SetupKind,
};
use crate::text::{ends_with, trim};
use vstd::prelude::*;

verus! {

// ---------------------------------------------------------------------------
// Names
// ---------------------------------------------------------------------------

/// Whether a character is kept in the name of a checkout.
pub open spec fn is_kept(c: char) -> bool {
    'a' <= c <= 'z' || 'A' <= c <= 'Z' || '0' <= c <= '9' || c == '-' || c == '_' || c == '.'
}

/// A name with a hyphen for every character that is not kept.
pub open spec fn cleaned(name: Seq<char>) -> Seq<char> {
    name.map_values(
        |c: char|
            if is_kept(c) {
                c
            } else {
                '-'
            },
    )
}

/// A URL with a last segment, slashes behind it and blanks around it.
pub open spec fn url_with(
    a: Seq<char>,
    head: Seq<char>,
    segment: Seq<char>,
    n: nat,
    b: Seq<char>,
) -> Seq<char> {
    a + (head + segment + Seq::new(n, |i: int| '/')) + b
}

/// The last segment of a URL is found.
proof fn lemma_segment(
    a: Seq<char>,
    head: Seq<char>,
    segment: Seq<char>,
    n: nat,
    b: Seq<char>,
)
    requires
        is_blank(a) && is_blank(b),
        head.len() > 0 ==> head.last() == '/' && !crate::text::is_white(head[0]),
        segment.len() > 0 && is_tight(segment) && !segment.contains('/'),
    ensures
        crate::setup::last_segment(
            crate::text::trim_end_char(trim(url_with(a, head, segment, n, b)), '/'),
        ) == segment,
{
    reveal_strlit("/");
    assert("/"@ =~= seq!['/']);
    let run = Seq::new(n, |i: int| '/');
    let body = head + segment;
    let m = body + run;
    assert(body.last() == segment.last());
    assert(segment.contains(segment.last()));
    assert(m[0] == (if head.len() > 0 {
        head[0]
    } else {
        segment[0]
    }));
    if n > 0 {
        assert(m.last() == '/');
    } else {
        assert(m =~= body);
    }
    crate::laws::text::law_trim(a, m, b);
    crate::laws::text::law_trim_char(body, '/', n);
    assert(!crate::text::contains(segment, "/"@)) by {
        if crate::text::contains(segment, "/"@) {
            let i = choose|i: int|
                0 <= i <= segment.len() - 1 && #[trigger] segment.subrange(i, i + "/"@.len())
                    == "/"@;
            assert(segment.subrange(i, i + 1)[0] == segment[i]);
            assert(segment.contains(segment[i]));
        }
    }
    if head.len() > 0 {
        let front = head.drop_last();
        assert(body =~= front + "/"@ + segment);
        assert("/"@.skip(1) + segment =~= segment);
        crate::laws::text::law_rsplit_once(front, "/"@, segment);
    } else {
        assert(body =~= segment);
        crate::laws::text::lemma_rfind_none(segment, "/"@);
    }
}

/// Law: a checkout is named after the last segment of the URL, without `.fossil`
/// or else `.git` at its end, and with a hyphen for every character that is no
/// letter, digit, hyphen, underscore or dot.
pub proof fn law_name_of_checkout(
    a: Seq<char>,
    head: Seq<char>,
    base: Seq<char>,
    n: nat,
    b: Seq<char>,
)
    requires
        is_blank(a) && is_blank(b),
        head.len() > 0 ==> head.last() == '/' && !crate::text::is_white(head[0]),
        base.len() > 0 && is_tight(base) && !base.contains('/'),
    ensures
        checkout_name(url_with(a, head, base + ".fossil"@, n, b)) == cleaned(base),
        checkout_name(url_with(a, head, base + ".git"@, n, b)) == cleaned(base),
        !ends_with(base, ".fossil"@) && !ends_with(base, ".git"@) ==> checkout_name(
            url_with(a, head, base, n, b),
        ) == cleaned(base),
{
    reveal_strlit(".fossil");
    reveal_strlit(".git");
    let f = ".fossil"@;
    let g = ".git"@;
    assert(f =~= seq!['.', 'f', 'o', 's', 's', 'i', 'l']);
    assert(g =~= seq!['.', 'g', 'i', 't']);
    let bf = base + f;
    let bg = base + g;
    assert(bf[0] == base[0] && bf.last() == 'l');
    assert(bg[0] == base[0] && bg.last() == 't');
    lemma_no_slash(base, f);
    lemma_no_slash(base, g);
    lemma_segment(a, head, bf, n, b);
    lemma_segment(a, head, bg, n, b);
    lemma_segment(a, head, base, n, b);
    crate::laws::text::law_prefix_and_suffix(f, base, bf);
    crate::laws::text::law_prefix_and_suffix(g, base, bg);
    assert(!ends_with(bg, f)) by {
        if ends_with(bg, f) {
            assert(bg.skip(bg.len() - 7).last() == bg.last());
            assert(f.last() == 'l');
        }
    }
    lemma_sanitized(base);
}

proof fn lemma_no_slash(base: Seq<char>, end: Seq<char>)
    requires
        !base.contains('/'),
        forall|i: int| 0 <= i < end.len() ==> #[trigger] end[i] != '/',
    ensures
        !(base + end).contains('/'),
{
    let s = base + end;
    if s.contains('/') {
        let i = s.index_of('/');
        if i < base.len() {
            assert(base.contains(base[i]));
        } else {
            assert(end[i - base.len()] == '/');
        }
    }
}

proof fn lemma_sanitized(base: Seq<char>)
    requires
        base.len() > 0,
    ensures
        crate::setup::sanitized(base) == cleaned(base),
{
    assert(crate::setup::sanitized(base) =~= cleaned(base));
}

/// Law: where a URL names nothing, the checkout is called `repository`.
pub proof fn law_nameless_checkout(a: Seq<char>, n: nat, b: Seq<char>)
    requires
        is_blank(a) && is_blank(b),
    ensures
        checkout_name(a + Seq::new(n, |i: int| '/') + b) == "repository"@,
{
    reveal_strlit("repository");
    reveal_strlit("/");
    reveal_strlit(".fossil");
    reveal_strlit(".git");
    assert("/"@ =~= seq!['/']);
    let none = Seq::<char>::empty();
    let run = Seq::new(n, |i: int| '/');
    if n > 0 {
        assert(run[0] == '/' && run.last() == '/');
    }
    crate::laws::text::law_trim(a, run, b);
    crate::laws::text::law_trim_char(none, '/', n);
    assert(none + run =~= run);
    assert(!crate::text::contains(none, "/"@));
    crate::laws::text::lemma_rfind_none(none, "/"@);
    let name = "repository"@;
    assert(name =~= seq!['r', 'e', 'p', 'o', 's', 'i', 't', 'o', 'r', 'y']);
    assert(".fossil"@.last() == 'l' && ".git"@.last() == 't' && name.last() == 'y');
    assert(!ends_with(name, ".fossil"@)) by {
        if ends_with(name, ".fossil"@) {
            assert(name.skip(3).last() == name.last());
        }
    }
    assert(!ends_with(name, ".git"@)) by {
        if ends_with(name, ".git"@) {
            assert(name.skip(6).last() == name.last());
        }
    }
    lemma_sanitized(name);
    assert(cleaned(name) =~= name);
}

/// Law: the database of a repository is named after its checkout, or `repository`
/// if that has no name.
pub proof fn law_name_of_database(name: Seq<char>)
    ensures
        database_name(name) == name + ".fossil"@,
        name.len() > 0 ==> name_or_default(Some(name)) == name,
        name.len() == 0 ==> name_or_default(Some(name)) == "repository"@,
        name_or_default(None) == "repository"@,
{
}

// ---------------------------------------------------------------------------
// Commands
// ---------------------------------------------------------------------------

/// Law: a repository is cloned from the URL as it was given, into a database beside
/// the checkout, and opened there. A blank URL is refused.
pub proof fn law_cloning(url: Seq<char>)
    ensures
        trim(url).len() == 0 ==> clone_plan(url) == Err::<ClonePlanView, FossilErrorView>(
            FossilErrorView::UrlRequired,
        ),
        trim(url).len() > 0 ==> clone_plan(url) == Ok::<ClonePlanView, FossilErrorView>(
            ClonePlanView {
                repository_name: checkout_name(url) + ".fossil"@,
                checkout_name: checkout_name(url),
                clone: seq![
                    SetupArgView::Text("clone"@),
                    SetupArgView::Text(url),
                    SetupArgView::Repository,
                ],
                open: seq![
                    SetupArgView::Text("open"@),
                    SetupArgView::Repository,
                    SetupArgView::Text("--workdir"@),
                    SetupArgView::Checkout,
                ],
            },
        ),
{
}

/// Law: a checkout is opened from its database; only in a directory that is already
/// there is it forced. A repository is made at its database.
pub proof fn law_opening_and_making()
    ensures
        open_args(false) == seq![
            SetupArgView::Text("open"@),
            SetupArgView::Repository,
            SetupArgView::Text("--workdir"@),
            SetupArgView::Checkout,
        ],
        open_args(true) == seq![
            SetupArgView::Text("open"@),
            SetupArgView::Repository,
            SetupArgView::Text("--workdir"@),
            SetupArgView::Checkout,
            SetupArgView::Text("--force"@),
        ],
        init_args() == seq![SetupArgView::Text("init"@), SetupArgView::Repository],
{
    assert(open_args(true) =~= seq![
        SetupArgView::Text("open"@),
        SetupArgView::Repository,
        SetupArgView::Text("--workdir"@),
        SetupArgView::Checkout,
        SetupArgView::Text("--force"@),
    ]);
}

/// Law: a failed command is told by what it printed as errors, or else by what it
/// printed otherwise, without the blanks around it.
pub proof fn law_failure(
    a: Seq<char>,
    out: Seq<char>,
    b: Seq<char>,
    c: Seq<char>,
    err: Seq<char>,
    d: Seq<char>,
)
    requires
        is_blank(a) && is_blank(b) && is_blank(c) && is_blank(d),
        is_tight(out) && is_tight(err),
    ensures
        err.len() > 0 ==> failure_text(a + out + b, c + err + d) == err,
        err.len() == 0 ==> failure_text(a + out + b, c + err + d) == out,
{
    crate::laws::text::law_trim(a, out, b);
    crate::laws::text::law_trim(c, err, d);
}

// ---------------------------------------------------------------------------
// Asking and telling
// ---------------------------------------------------------------------------

/// Law: one directory, or one file, is asked for; of several that are chosen the
/// last counts.
pub proof fn law_prompts<T>(prompt: Seq<char>, paths: Seq<T>, last: T)
    ensures
        directory_prompt(prompt) == (false, true, false, prompt),
        file_prompt(prompt) == (true, false, false, prompt),
        chosen(Some(paths.push(last))) == Some(last),
        chosen(Some(Seq::<T>::empty())) is None,
        chosen::<T>(None) is None,
{
}

/// Law: the titles tell what was done, and to which checkout.
pub proof fn law_titles(name: Seq<char>)
    ensures
        error_title(SetupKind::Clone) == "Fossil Clone"@,
        error_title(SetupKind::OpenRepository) == "Fossil Open Repository"@,
        error_title(SetupKind::Init) == "Fossil Init"@,
        repository_title(Some(name)) == "Fossil Repository: "@ + name,
        repository_title(None) == "Fossil Repository: "@ + "repository"@,
{
}

/// Law: the first button, and no answer, add the checkout to the project; the
/// second opens a new one; with any other nothing is done.
pub proof fn law_buttons(button: usize)
    ensures
        answer_choice(None) == OpenCheckout::AddToProject,
        answer_choice(Some(0)) == OpenCheckout::AddToProject,
        answer_choice(Some(1)) == OpenCheckout::OpenNewProject,
        button > 1 ==> answer_choice(Some(button)) == OpenCheckout::Nothing,
{
}

/// Law: only a checkout that was added to the project is announced; where nothing
/// was opened nothing is told.
pub proof fn law_toasts(error: Option<Seq<char>>, display: Seq<char>)
    ensures
        open_toast(OpenCheckout::AddToProject, None, display) == Some(
            ("Opened Fossil checkout "@ + display, false),
        ),
        open_toast(OpenCheckout::OpenNewProject, None, display) is None,
        open_toast(OpenCheckout::Nothing, error, display) is None,
        open_toast(OpenCheckout::Ask, error, display) is None,
        error is Some ==> open_toast(OpenCheckout::AddToProject, error, display) == Some(
            ("Failed to open Fossil checkout: "@ + error->0, true),
        ),
        error is Some ==> open_toast(OpenCheckout::OpenNewProject, error, display) == Some(
            ("Failed to open Fossil checkout: "@ + error->0, true),
        ),
{
}

/// Law: confirming clones from the URL as it was typed, cancelling clones nothing,
/// and both close the dialog; asking for more opens a page and leaves it open.
pub proof fn law_dialog(input: Seq<char>)
    ensures
        modal_action(input, ModalEvent::Confirm) == (ModalActionView {
            clone_url: Some(input),
            open_url: None,
            dismiss: true,
        }),
        modal_action(input, ModalEvent::Cancel) == (ModalActionView {
            clone_url: None,
            open_url: None,
            dismiss: true,
        }),
        modal_action(input, ModalEvent::LearnMore) == (ModalActionView {
            clone_url: None,
            open_url: Some("https://fossil-scm.org/home/doc/trunk/www/ckout-workflows.md"@),
            dismiss: false,
        }),
{
}

// ---------------------------------------------------------------------------
// The executable
// ---------------------------------------------------------------------------

/// Law: the executable is looked for in the search paths, if any are given, then on
/// the path of the process, then on macOS in the usual places; if it is nowhere,
/// that is told.
pub proof fn law_places_of_the_executable(paths: Seq<char>, places: Seq<Seq<char>>, macos: bool)
    ensures
        paths.len() > 0 ==> first_lookup(Some(paths)) == BinaryLookupView::InSearchPaths,
        paths.len() == 0 ==> first_lookup(Some(paths)) == BinaryLookupView::OnPath,
        first_lookup(None) == BinaryLookupView::OnPath,
        next_lookup(BinaryLookupView::InSearchPaths, macos) == BinaryLookupView::OnPath,
        next_lookup(BinaryLookupView::OnPath, true) == BinaryLookupView::AtPaths(
            seq![
                "/opt/homebrew/bin/fossil"@,
                "/usr/local/bin/fossil"@,
                "/opt/local/bin/fossil"@,
                "/sw/bin/fossil"@,
            ],
        ),
        next_lookup(BinaryLookupView::OnPath, false) == BinaryLookupView::Failed(
            FossilErrorView::BinaryNotFound,
        ),
        next_lookup(BinaryLookupView::AtPaths(places), macos) == BinaryLookupView::Failed(
            FossilErrorView::BinaryNotFound,
        ),
{
}

// ---------------------------------------------------------------------------
// Errors
// ---------------------------------------------------------------------------

/// Law: an error names what it is about, whole, behind or between its words.
pub proof fn law_errors_name_what_they_are_about(t: Seq<char>, u: Seq<char>)
    ensures
        error_message(FossilErrorView::CommitInfo(t)) == "parsing Fossil info for "@ + t
            + ": missing Fossil check-in hash"@,
        error_message(FossilErrorView::HashNotOid(t))
            == "Fossil check-in hash cannot be represented as an OID: "@ + t,
        error_message(FossilErrorView::UnresolvedConflict(t))
            == "Cannot check in unresolved Fossil conflict at "@ + t,
        error_message(FossilErrorView::NoRecordedRename(t))
            == "No recorded Fossil rename found for "@ + t,
        error_message(FossilErrorView::Unsupported(t)) == "Fossil backend does not support "@ + t
            + " yet"@,
        error_message(FossilErrorView::PathExists(t)) == "Path already exists: "@ + t,
        error_message(FossilErrorView::RepositoryMissing(t))
            == "Fossil repository database does not exist: "@ + t,
        error_message(FossilErrorView::CheckoutMissing(t)) == "Checkout directory does not exist: "@
            + t,
        error_message(FossilErrorView::SetupCommand(t)) == "fossil command failed: "@ + t,
        error_message(FossilErrorView::Command { stdout: t, stderr: u })
            == "Fossil command failed:\n"@ + t + u + "\n"@,
        error_message(FossilErrorView::AbsolutePath(t)) == "absolute path not allowed: "@ + t,
        error_message(FossilErrorView::PathNotRelative(t)) == "path is not relative: "@ + t,
        error_message(FossilErrorView::Other(t)) == t,
{
}

} // verus!
