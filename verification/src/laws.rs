use vstd::prelude::*;
use vstd::utf8::{decode_utf8, valid_utf8};

use crate::command::OutcomeView;
use crate::commands::{begin, finished, next, ActionView, CloneView, PlannerView};
use crate::config::{base_directory, KEY_NOT_FOUND_STATUS};
use crate::error::CloneError;
use crate::path::{is_absolute, join_path, needs_separator, push_component, separator};
use crate::source::{destination_path, SourceUrlView};
use crate::text::trimmed;
use crate::upstream::{upstream_url, with_first_segment, UpstreamSpecView};

verus! {

/// Each of `components` behind a separator of its own, in order.
pub open spec fn separated(components: Seq<Seq<char>>) -> Seq<char>
    decreases components.len(),
{
    if components.len() == 0 {
        Seq::empty()
    } else {
        separated(components.drop_last()).push(separator()) + components.last()
    }
}

/// The actions that the caller is told, one after each of `outcomes`, when
/// it hands them in from `planner` on.
pub open spec fn actions_after(planner: PlannerView, outcomes: Seq<OutcomeView>) -> Seq<ActionView>
    decreases outcomes.len(),
{
    if outcomes.len() == 0 {
        Seq::empty()
    } else {
        let step = next(planner, outcomes.first());
        seq![step.action] + actions_after(step.planner, outcomes.drop_first())
    }
}

/// Whether each of `actions` is to stop with `result`.
pub open spec fn all_finish(actions: Seq<ActionView>, result: Result<(), CloneError>) -> bool {
    forall|i: int| 0 <= i < actions.len() ==> #[trigger] actions[i] == ActionView::Finish(result)
}

/// Joining a path that does not end in a separator with components none
/// of which is empty or ends in one puts exactly one separator before each
/// component.
pub proof fn lemma_join_path_separates(base: Seq<char>, components: Seq<Seq<char>>)
    requires
        needs_separator(base),
        forall|i: int| 0 <= i < components.len() ==> needs_separator(#[trigger] components[i]),
    ensures
        join_path(base, components) == base + separated(components),
        needs_separator(join_path(base, components)),
    decreases components.len(),
{
    if components.len() == 0 {
        assert(base + separated(components) =~= base);
    } else {
        let front = components.drop_last();
        assert forall|i: int| 0 <= i < front.len() implies needs_separator(#[trigger] front[i]) by {
            assert(front[i] == components[i]);
        }
        lemma_join_path_separates(base, front);
        assert(needs_separator(components.last()));
        assert((base + separated(front)).push(separator()) + components.last() =~= base
            + separated(components));
    }
}

/// A URL with a host is cloned to the base directory, then the host, then
/// the path segments in their order.
pub proof fn lemma_destination_with_host(base: Seq<char>, url: SourceUrlView)
    requires
        url.host is Some,
    ensures
        destination_path(base, url) == join_path(base, seq![url.host->0] + url.segments()),
        destination_path(base, url) == join_path(push_component(base, url.host->0), url.segments()),
{
    crate::path::lemma_join_path_first(base, url.host->0, url.segments());
}

/// Where neither the base directory nor the host nor a path segment is
/// empty or ends in a separator, the clone's place is the base directory
/// followed by the host and by each path segment in order, each behind one
/// separator.
pub proof fn lemma_destination_separates(base: Seq<char>, url: SourceUrlView)
    requires
        url.host is Some,
        needs_separator(base),
        needs_separator(url.host->0),
        forall|i: int|
            0 <= i < url.segments().len() ==> needs_separator(#[trigger] url.segments()[i]),
    ensures
        destination_path(base, url) == base + separated(seq![url.host->0] + url.segments()),
{
    let components = seq![url.host->0] + url.segments();
    assert forall|i: int| 0 <= i < components.len() implies needs_separator(
        #[trigger] components[i],
    ) by {
        if i > 0 {
            assert(components[i] == url.segments()[i - 1]);
        }
    }
    lemma_join_path_separates(base, components);
}

/// A URL without a host is cloned to the base directory itself, whatever
/// its path.
pub proof fn lemma_destination_without_host(base: Seq<char>, url: SourceUrlView)
    requires
        url.host is None,
    ensures
        destination_path(base, url) == base,
{
}

/// The upstream URL that a short-form name gives has the scheme and the host
/// of the source, the name as its first path segment, and after it the
/// source's other path segments in their order.
pub proof fn lemma_upstream_keeps_all_but_first_segment(url: SourceUrlView, name: Seq<char>)
    requires
        url.segments().len() >= 1,
    ensures
        with_first_segment(url, name).scheme == url.scheme,
        with_first_segment(url, name).host == url.host,
        with_first_segment(url, name).segments().len() == url.segments().len(),
        with_first_segment(url, name).segments()[0] == name,
        forall|i: int|
            1 <= i < url.segments().len() ==> #[trigger] with_first_segment(
                url,
                name,
            ).segments()[i] == url.segments()[i],
{
}

/// A short-form upstream cannot be had from a URL without path segments.
pub proof fn lemma_short_form_needs_a_segment(
    name: Seq<char>,
    text: Seq<char>,
    source: SourceUrlView,
)
    requires
        source.segments().len() == 0,
    ensures
        upstream_url(UpstreamSpecView::ShortForm(name), text, source) == Err::<
            Option<Seq<char>>,
            CloneError,
        >(CloneError::UrlHasNoPathSegments),
{
}

/// Once the operation has ended, the caller is never again told to execute
/// a command: every later action is to stop with the same result.
pub proof fn lemma_finished_stays_finished(
    result: Result<(), CloneError>,
    outcomes: Seq<OutcomeView>,
)
    ensures
        all_finish(actions_after(PlannerView::Finished(result), outcomes), result),
    decreases outcomes.len(),
{
    if outcomes.len() > 0 {
        lemma_finished_stays_finished(result, outcomes.drop_first());
        let rest = actions_after(PlannerView::Finished(result), outcomes.drop_first());
        let all = actions_after(PlannerView::Finished(result), outcomes);
        assert(all =~= seq![ActionView::Finish(result)] + rest);
        assert forall|i: int| 0 <= i < all.len() implies #[trigger] all[i] == ActionView::Finish(
            result,
        ) by {
            if i > 0 {
                assert(all[i] == rest[i - 1]);
            }
        }
    }
}

/// A request that gives the upstream both in the short form and as a full
/// URL is refused at once, and no command is ever executed for it.
pub proof fn lemma_conflicting_upstream_runs_nothing(
    request: CloneView,
    outcomes: Seq<OutcomeView>,
)
    requires
        request.upstream is Some,
        request.upstream_url is Some,
    ensures
        begin(request) == finished(Err(CloneError::ConflictingUpstream)),
        all_finish(
            actions_after(begin(request).planner, outcomes),
            Err(CloneError::ConflictingUpstream),
        ),
{
    lemma_finished_stays_finished(Err(CloneError::ConflictingUpstream), outcomes);
}

/// A request whose URL does not parse is refused at once, and no command is
/// ever executed for it.
pub proof fn lemma_invalid_url_runs_nothing(request: CloneView, outcomes: Seq<OutcomeView>)
    requires
        !(request.upstream is Some && request.upstream_url is Some),
        crate::source::url_parse(request.url) is None,
    ensures
        begin(request) == finished(Err(CloneError::InvalidUrl)),
        all_finish(actions_after(begin(request).planner, outcomes), Err(CloneError::InvalidUrl)),
{
    lemma_finished_stays_finished(Err(CloneError::InvalidUrl), outcomes);
}

/// Where the base directory cannot be resolved, the operation ends with the
/// resolver's error as soon as the configuration was read: the clone command
/// is never executed, nor any other.
pub proof fn lemma_no_base_directory_runs_nothing(
    url: Seq<char>,
    source: SourceUrlView,
    upstream: UpstreamSpecView,
    args: Seq<Seq<char>>,
    outcomes: Seq<OutcomeView>,
)
    requires
        outcomes.len() >= 1,
        base_directory(outcomes.first()) is Err,
    ensures
        all_finish(
            actions_after(PlannerView::ReadingConfig { url, source, upstream, args }, outcomes),
            Err(base_directory(outcomes.first())->Err_0),
        ),
{
    let e = base_directory(outcomes.first())->Err_0;
    let planner = PlannerView::ReadingConfig { url, source, upstream, args };
    lemma_finished_stays_finished(Err(e), outcomes.drop_first());
    let rest = actions_after(PlannerView::Finished(Err(e)), outcomes.drop_first());
    let all = actions_after(planner, outcomes);
    assert(next(planner, outcomes.first()) == finished(Err(e)));
    assert(all =~= seq![ActionView::Finish(Err(e))] + rest);
    assert forall|i: int| 0 <= i < all.len() implies #[trigger] all[i] == ActionView::Finish(
        Err(e),
    ) by {
        if i > 0 {
            assert(all[i] == rest[i - 1]);
        }
    }
}

/// Whether none of `actions` is to execute a command.
pub open spec fn runs_nothing(actions: Seq<ActionView>) -> bool {
    forall|i: int| 0 <= i < actions.len() ==> #[trigger] actions[i] is Finish
}

/// Where the first command of a clone does not resolve the base directory,
/// no command follows it, whatever the request was.
pub proof fn lemma_clone_needs_base_directory(request: CloneView, outcomes: Seq<OutcomeView>)
    requires
        outcomes.len() >= 1,
        base_directory(outcomes.first()) is Err,
    ensures
        runs_nothing(actions_after(begin(request).planner, outcomes)),
{
    match begin(request).planner {
        PlannerView::ReadingConfig { url, source, upstream, args } => {
            lemma_no_base_directory_runs_nothing(url, source, upstream, args, outcomes);
        },
        PlannerView::Finished(result) => {
            lemma_finished_stays_finished(result, outcomes);
        },
        _ => {},
    }
}

/// Where the base directory is not set, the operation fails with
/// `ConfigMissing` as soon as the configuration was read, and the clone
/// command is never executed.
pub proof fn lemma_unset_base_directory_runs_no_clone(
    url: Seq<char>,
    source: SourceUrlView,
    upstream: UpstreamSpecView,
    args: Seq<Seq<char>>,
    outcomes: Seq<OutcomeView>,
)
    requires
        outcomes.len() >= 1,
        outcomes.first().exit_status == Some(KEY_NOT_FOUND_STATUS),
    ensures
        base_directory(outcomes.first()) == Err::<Seq<char>, CloneError>(
            CloneError::ConfigMissing,
        ),
        all_finish(
            actions_after(PlannerView::ReadingConfig { url, source, upstream, args }, outcomes),
            Err(CloneError::ConfigMissing),
        ),
{
    lemma_no_base_directory_runs_nothing(url, source, upstream, args, outcomes);
}

/// Where the configured base directory is a relative path, the operation
/// fails with `ConfigInvalid` as soon as the configuration was read, and the
/// clone command is never executed.
pub proof fn lemma_relative_base_directory_runs_no_clone(
    url: Seq<char>,
    source: SourceUrlView,
    upstream: UpstreamSpecView,
    args: Seq<Seq<char>>,
    outcomes: Seq<OutcomeView>,
)
    requires
        outcomes.len() >= 1,
        outcomes.first().exit_status == Some(0i32),
        valid_utf8(outcomes.first().stdout),
        !is_absolute(trimmed(decode_utf8(outcomes.first().stdout))),
    ensures
        base_directory(outcomes.first()) == Err::<Seq<char>, CloneError>(
            CloneError::ConfigInvalid,
        ),
        all_finish(
            actions_after(PlannerView::ReadingConfig { url, source, upstream, args }, outcomes),
            Err(CloneError::ConfigInvalid),
        ),
{
    lemma_no_base_directory_runs_nothing(url, source, upstream, args, outcomes);
}

/// One action follows each outcome.
pub proof fn lemma_one_action_for_each_outcome(planner: PlannerView, outcomes: Seq<OutcomeView>)
    ensures
        actions_after(planner, outcomes).len() == outcomes.len(),
    decreases outcomes.len(),
{
    if outcomes.len() > 0 {
        lemma_one_action_for_each_outcome(
            next(planner, outcomes.first()).planner,
            outcomes.drop_first(),
        );
    }
}

/// A clone executes at most three commands: the one it begins with and one
/// after each of the first two outcomes. After the third outcome, and after
/// every later one, the caller is told to stop.
pub proof fn lemma_at_most_three_commands(request: CloneView, outcomes: Seq<OutcomeView>)
    ensures
        forall|i: int|
            2 <= i < outcomes.len() ==> #[trigger] actions_after(
                begin(request).planner,
                outcomes,
            )[i] is Finish,
{
    let start = begin(request).planner;
    let all = actions_after(start, outcomes);
    lemma_one_action_for_each_outcome(start, outcomes);
    if outcomes.len() >= 3 {
        let first = next(start, outcomes[0]);
        let after_first = outcomes.drop_first();
        let second = next(first.planner, after_first.first());
        let after_second = after_first.drop_first();
        let third = next(second.planner, after_second.first());
        let after_third = after_second.drop_first();
        assert(third.planner is Finished);
        let result = third.planner->Finished_0;
        lemma_finished_stays_finished(result, after_third);
        let from_first = actions_after(first.planner, after_first);
        let from_second = actions_after(second.planner, after_second);
        let from_third = actions_after(third.planner, after_third);
        assert(all =~= seq![first.action] + from_first);
        assert(from_first =~= seq![second.action] + from_second);
        assert(from_second =~= seq![third.action] + from_third);
        assert forall|i: int| 2 <= i < outcomes.len() implies #[trigger] all[i] is Finish by {
            assert(all[i] == from_first[i - 1]);
            assert(from_first[i - 1] == from_second[i - 2]);
            if i > 2 {
                assert(from_second[i - 2] == from_third[i - 3]);
            }
        }
    }
}

} // verus!
