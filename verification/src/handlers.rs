//! The requests of the service, each from what it carries to its answer.
//!
//! What the database holds when a request arrives is the engine's to say,
//! so the contract of each request says what its answer can be, and for each
//! outcome of the store a function of its own says which answer it gets.

use crate::config::Config;
use crate::content::ContentType;
use crate::error::PastyError;
use crate::ident::is_id_char;
use crate::ident::random_id;
use crate::pasty::Pasty;
use crate::pasty::PastyView;
use crate::report::entry_shown;
use crate::report::show_listing;
use crate::report::show_stats;
use crate::report::stats_shown;
use crate::report::EntryReport;
use crate::report::StatsReport;
use crate::request::access_granted;
use crate::request::check_access;
use crate::request::check_post;
use crate::request::deleted_view;
use crate::request::handle_pasty_error;
use crate::request::is_fault_answer;
use crate::request::is_url;
use crate::request::post_verdict;
use crate::request::refusal_view;
use crate::request::serve;
use crate::request::served_view;
use crate::request::updated_view;
use crate::request::Answer;
use crate::request::AnswerView;
use crate::request::Rejection;
use crate::service::delete_pasty_by_id;
use crate::service::get_pasty_by_id;
use crate::service::get_stats_by_id;
use crate::service::list_all_pasties;
use crate::service::update_pasty_by_id;
use crate::service::view_stats_by_id;
use crate::stats::Stats;
use crate::tables::key_before;
use crate::text::joined;
use redb::Database;
use vstd::prelude::*;

verus! {

/// Whether `answer` is the answer to the failure `error` of the store.
pub open spec fn answers_failure(answer: AnswerView, error: PastyError) -> bool {
    match refusal_view(error) {
        Some(refusal) => answer == refusal,
        None => is_fault_answer(answer),
    }
}

/// Whether `answer` may be the answer to a request that reached the store
/// with a token or without and was not carried out: the token was wanting
/// where none was offered, wrong where one was, or the storage failed.
pub open spec fn answers_refused_write(answer: AnswerView, with_token: bool) -> bool {
    ||| !with_token && answers_failure(answer, PastyError::TokenRequired)
    ||| with_token && answers_failure(answer, PastyError::TokenMismatch)
    ||| is_fault_answer(answer)
}

/// Whether `answer` may be the answer to a request to store content
/// under `id`: the rejection where the request is turned away, else the word
/// that the entry was stored, or why the store did not store it.
pub open spec fn answers_post(
    answer: AnswerView,
    verdict: Result<ContentType, Rejection>,
    id: Seq<char>,
    with_token: bool,
) -> bool {
    match verdict {
        Err(rejection) => answer == rejection.answer_view(),
        Ok(_) => answer == updated_view(id) || answers_refused_write(answer, with_token),
    }
}

/// The answer to a creation or change of `id`, from how it ended.
pub fn update_answer(id: &str, outcome: &Result<(), PastyError>) -> (answer: Answer)
    ensures
        match *outcome {
            Ok(_) => answer@ == updated_view(id@),
            Err(error) => answers_failure(answer@, error),
        },
{
    match outcome {
        Ok(_) => Answer::Json {
            status: 200,
            message: joined("The short link has been updated: ", id),
        },
        Err(error) => handle_pasty_error(error),
    }
}

/// The answer to a removal of `id`, from how it ended.
pub fn delete_answer(id: &str, outcome: &Result<(), PastyError>) -> (answer: Answer)
    ensures
        match *outcome {
            Ok(_) => answer@ == deleted_view(id@),
            Err(error) => answers_failure(answer@, error),
        },
{
    match outcome {
        Ok(_) => Answer::Json {
            status: 200,
            message: joined("The short link has been deleted: ", id),
        },
        Err(error) => handle_pasty_error(error),
    }
}

/// The answer to a fetch, from how it ended: the entry served, or the
/// failure told.
pub fn fetch_answer(outcome: Result<Pasty, PastyError>) -> (answer: Answer)
    ensures
        match outcome {
            Ok(pasty) => answer@ == served_view(pasty@),
            Err(error) => answers_failure(answer@, error),
        },
{
    match outcome {
        Ok(pasty) => serve(pasty),
        Err(error) => handle_pasty_error(&error),
    }
}

/// The answer to a fetch of the statistics of `id`, from how it ended.
pub fn stats_answer(id: &str, outcome: Result<Stats, PastyError>) -> (answer: Result<
    StatsReport,
    Answer,
>)
    ensures
        match outcome {
            Ok(stats) => answer matches Ok(report) && report@ == stats_shown(id@, stats),
            Err(error) => answer matches Err(told) && answers_failure(told@, error),
        },
{
    match outcome {
        Ok(stats) => Ok(show_stats(id, &stats)),
        Err(error) => Err(handle_pasty_error(&error)),
    }
}

/// The answer to a listing, from how it ended.
pub fn listing_answer(outcome: Result<Vec<(Pasty, Stats)>, PastyError>) -> (answer: Result<
    Vec<EntryReport>,
    Answer,
>)
    ensures
        match outcome {
            Ok(listing) => answer matches Ok(reports) && reports.len() == listing.len()
                && forall|i: int|
                0 <= i < reports.len() ==> (#[trigger] reports[i])@ == entry_shown(listing[i]),
            Err(error) => answer matches Err(told) && answers_failure(told@, error),
        },
{
    match outcome {
        Ok(listing) => Ok(show_listing(&listing)),
        Err(error) => Err(handle_pasty_error(&error)),
    }
}

/// Serves the entry under `id` and counts the view. A view that could not
/// be counted does not change the answer.
pub fn get_by_id(db: &Database, id: &str) -> (answer: Answer)
    ensures
        ({
            ||| exists|pasty: PastyView| pasty.id == id@ && answer@ == served_view(pasty)
            ||| answers_failure(answer@, PastyError::NotFound)
            ||| is_fault_answer(answer@)
        }),
{
    let outcome = get_pasty_by_id(db, id);
    if outcome.is_ok() {
        let _ = view_stats_by_id(db, id);
    }
    proof {
        if outcome is Ok {
            assert(outcome->Ok_0@.id == id@);
        }
    }
    fetch_answer(outcome)
}

/// Shows the statistics of `id`. No password and no token is asked for.
pub fn get_stat_by_id(db: &Database, id: &str) -> (answer: Result<StatsReport, Answer>)
    ensures
        match answer {
            Ok(report) => exists|stats: Stats|
                stats.well_formed() && report@ == stats_shown(id@, stats),
            Err(told) => answers_failure(told@, PastyError::NotFound) || is_fault_answer(told@),
        },
{
    let outcome = get_stats_by_id(db, id);
    proof {
        if outcome is Ok {
            assert(outcome->Ok_0.well_formed());
        }
    }
    stats_answer(id, outcome)
}

/// Lists every entry with its statistics, for a request that passes the
/// password of the deployment. The identifiers come in strictly rising
/// order.
pub fn get_all(db: &Database, config: &Config, access: &str) -> (answer: Result<
    Vec<EntryReport>,
    Answer,
>)
    ensures
        !access_granted(config.access_password@, access@) ==> (answer matches Err(told) && told@
            == Rejection::Unauthorized.answer_view()),
        access_granted(config.access_password@, access@) ==> match answer {
            Ok(reports) => forall|i: int, j: int|
                0 <= i < j < reports.len() ==> key_before(
                    (#[trigger] reports[i])@.id,
                    (#[trigger] reports[j])@.id,
                ),
            Err(told) => is_fault_answer(told@),
        },
{
    if let Some(refusal) = check_access(config, access) {
        return Err(refusal);
    }
    let outcome = list_all_pasties(db);
    let ghost listed = outcome;
    let answer = listing_answer(outcome);
    proof {
        if listed is Ok {
            let listing = listed->Ok_0;
            let reports = answer->Ok_0;
            assert forall|i: int, j: int| 0 <= i < j < reports.len() implies key_before(
                (#[trigger] reports[i])@.id,
                (#[trigger] reports[j])@.id,
            ) by {
                assert(reports[i]@ == entry_shown(listing[i]));
                assert(reports[j]@ == entry_shown(listing[j]));
            }
        }
    }
    answer
}

/// Stores `content` under `id`, for a request that passes the password of
/// the deployment, names an identifier and a kind that the store knows, and,
/// for a redirect, gives a URL. The token `pwd` sets the owner of a new
/// identifier and must be the owner's for one that has an owner.
pub fn post_by_id(
    db: &Database,
    config: &Config,
    id: &str,
    kind: Option<&str>,
    pwd: Option<&str>,
    access: &str,
    content: &str,
) -> (answer: Answer)
    ensures
        answers_post(
            answer@,
            post_verdict(
                config.access_password@,
                access@,
                id@,
                kind.deep_view(),
                is_url(content@),
            ),
            id@,
            pwd is Some,
        ),
{
    match check_post(config, access, id, kind, content) {
        Err(rejection) => rejection.answer(),
        Ok(content_type) => {
            let outcome = update_pasty_by_id(db, id, content, content_type, pwd);
            update_answer(id, &outcome)
        },
    }
}

/// Stores `content` under a new identifier left to chance, of as many
/// characters as the deployment sets, all digits and letters.
pub fn post_index(
    db: &Database,
    config: &Config,
    kind: Option<&str>,
    pwd: Option<&str>,
    access: &str,
    content: &str,
) -> (answer: Answer)
    requires
        config.random_id_length >= 1,
    ensures
        exists|id: Seq<char>|
            {
                &&& id.len() == config.random_id_length
                &&& forall|i: int| 0 <= i < id.len() ==> is_id_char(#[trigger] id[i])
                &&& answers_post(
                    answer@,
                    post_verdict(
                        config.access_password@,
                        access@,
                        id,
                        kind.deep_view(),
                        is_url(content@),
                    ),
                    id,
                    pwd is Some,
                )
            },
{
    let id = random_id(config.random_id_length);
    let answer = post_by_id(db, config, id.as_str(), kind, pwd, access, content);
    proof {
        let chosen = id@;
        assert(chosen.len() == config.random_id_length);
        assert(forall|i: int| 0 <= i < chosen.len() ==> is_id_char(#[trigger] chosen[i]));
    }
    answer
}

/// Removes the entry under `id`, for a request that passes the password
/// of the deployment and, where the identifier has an owner, carries the
/// owner's token.
pub fn delete_by_id(db: &Database, config: &Config, id: &str, pwd: Option<&str>, access: &str) -> (answer:
    Answer)
    ensures
        !access_granted(config.access_password@, access@) ==> answer@
            == Rejection::Unauthorized.answer_view(),
        access_granted(config.access_password@, access@) ==> {
            ||| answer@ == deleted_view(id@)
            ||| answers_failure(answer@, PastyError::NotFound)
            ||| answers_refused_write(answer@, pwd is Some)
        },
{
    if let Some(refusal) = check_access(config, access) {
        return refusal;
    }
    let outcome = delete_pasty_by_id(db, id, pwd);
    delete_answer(id, &outcome)
}

} // verus!
