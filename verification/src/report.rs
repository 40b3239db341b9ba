//! Statistics and entries as they are shown: instants as text.

use crate::content::ContentType;
use crate::pasty::Pasty;
use crate::stats::Stats;
use chrono::DateTime;
use vstd::prelude::*;

verus! {

/// The instant `secs` seconds after the epoch as text in the form of RFC
/// 3339, as `chrono` writes it; the text of the epoch for an instant that the
/// calendar cannot represent.
pub uninterp spec fn rfc3339_text(secs: i64) -> Seq<char>;

/// `chrono::DateTime::from_timestamp` with no fraction of a second, the
/// epoch in place of an instant out of range, and `DateTime::to_rfc3339` on
/// it: the text depends on the seconds alone.
#[verifier::external_body]
fn rfc3339(secs: i64) -> (text: String)
    ensures
        text@ == rfc3339_text(secs),
{
    DateTime::from_timestamp(secs, 0).unwrap_or_default().to_rfc3339()
}

/// The statistics of an identifier as they are shown.
#[derive(Debug)]
pub struct StatsReport {
    pub id: String,
    pub views: u32,
    pub created_at: String,
    pub updated_at: String,
    pub last_viewed_at: String,
}

/// Shown statistics as a value of specifications.
pub struct StatsReportView {
    pub id: Seq<char>,
    pub views: u32,
    pub created_at: Seq<char>,
    pub updated_at: Seq<char>,
    pub last_viewed_at: Seq<char>,
}

impl View for StatsReport {
    type V = StatsReportView;

    open spec fn view(&self) -> StatsReportView {
        StatsReportView {
            id: self.id@,
            views: self.views,
            created_at: self.created_at@,
            updated_at: self.updated_at@,
            last_viewed_at: self.last_viewed_at@,
        }
    }
}

/// An entry with its statistics as a listing shows it.
#[derive(Debug)]
pub struct EntryReport {
    pub id: String,
    pub content_type: ContentType,
    pub views: u32,
    pub created_at: String,
    pub updated_at: String,
    pub last_viewed_at: String,
    pub content: String,
}

/// A shown entry as a value of specifications.
pub struct EntryReportView {
    pub id: Seq<char>,
    pub content_type: ContentType,
    pub views: u32,
    pub created_at: Seq<char>,
    pub updated_at: Seq<char>,
    pub last_viewed_at: Seq<char>,
    pub content: Seq<char>,
}

impl View for EntryReport {
    type V = EntryReportView;

    open spec fn view(&self) -> EntryReportView {
        EntryReportView {
            id: self.id@,
            content_type: self.content_type,
            views: self.views,
            created_at: self.created_at@,
            updated_at: self.updated_at@,
            last_viewed_at: self.last_viewed_at@,
            content: self.content@,
        }
    }
}

/// How the statistics `stats` of `id` are shown.
pub open spec fn stats_shown(id: Seq<char>, stats: Stats) -> StatsReportView {
    StatsReportView {
        id,
        views: stats.views,
        created_at: rfc3339_text(stats.created_at),
        updated_at: rfc3339_text(stats.updated_at),
        last_viewed_at: rfc3339_text(stats.last_viewed_at),
    }
}

/// How an entry of a listing is shown.
pub open spec fn entry_shown(entry: (Pasty, Stats)) -> EntryReportView {
    EntryReportView {
        id: entry.0.id@,
        content_type: entry.0.content_type,
        views: entry.1.views,
        created_at: rfc3339_text(entry.1.created_at),
        updated_at: rfc3339_text(entry.1.updated_at),
        last_viewed_at: rfc3339_text(entry.1.last_viewed_at),
        content: entry.0.content@,
    }
}

/// Shows the statistics of an identifier.
pub fn show_stats(id: &str, stats: &Stats) -> (report: StatsReport)
    ensures
        report@ == stats_shown(id@, *stats),
{
    StatsReport {
        id: id.to_owned(),
        views: stats.views,
        created_at: rfc3339(stats.created_at),
        updated_at: rfc3339(stats.updated_at),
        last_viewed_at: rfc3339(stats.last_viewed_at),
    }
}

/// Shows a listing: each entry in its place.
pub fn show_listing(listing: &Vec<(Pasty, Stats)>) -> (reports: Vec<EntryReport>)
    ensures
        reports.len() == listing.len(),
        forall|i: int| 0 <= i < reports.len() ==> (#[trigger] reports[i])@ == entry_shown(listing[i]),
{
    let mut reports: Vec<EntryReport> = Vec::new();
    let mut at: usize = 0;
    while at < listing.len()
        invariant
            at <= listing.len(),
            reports.len() == at,
            forall|i: int| 0 <= i < at ==> (#[trigger] reports[i])@ == entry_shown(listing[i]),
        decreases listing.len() - at,
    {
        let entry = &listing[at];
        reports.push(
            EntryReport {
                id: entry.0.id.clone(),
                content_type: entry.0.content_type,
                views: entry.1.views,
                created_at: rfc3339(entry.1.created_at),
                updated_at: rfc3339(entry.1.updated_at),
                last_viewed_at: rfc3339(entry.1.last_viewed_at),
                content: entry.0.content.clone(),
            },
        );
        at += 1;
    }
    reports
}

} // verus!
