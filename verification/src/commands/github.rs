//! GitHub commit activity: the request address and what each upstream status
//! means for the caller.

use vstd::prelude::*;
use vstd::string::*;

verus! {

/// The user agent announced to GitHub.
pub const GITHUB_USER_AGENT: &'static str = "ADuiTools";

/// The media type asked of GitHub.
pub const GITHUB_ACCEPT: &'static str = "application/vnd.github+json";

/// Shown while GitHub is still computing the statistics.
pub const GENERATING_HINT: &'static str =
    "GitHub 正在生成统计缓存（202 Accepted），请稍后再打开/刷新此页面。";

/// Commits of one week.
#[derive(Debug, Clone, Copy, PartialEq, Eq)]
pub struct Week {
    pub total: i64,
    /// Start of the week, in seconds since the Unix epoch.
    pub week: i64,
    /// Commits per day, Sunday first.
    pub days: [i64; 7],
}

/// The commit heat map of a repository: one column per week, oldest first.
#[derive(Debug, Clone, PartialEq, Eq)]
pub struct RepoCommitHeatmap {
    pub weeks: Vec<Week>,
    pub owner: String,
    pub repo: String,
    /// Advice for the user, such as to try again later.
    pub hint: Option<String>,
}

/// The address of a repository's commit activity statistics.
pub open spec fn activity_url(owner: Seq<char>, repo: Seq<char>) -> Seq<char> {
    "https://api.github.com/repos/"@ + owner + "/"@ + repo + "/stats/commit_activity"@
}

/// Builds the address of a repository's commit activity statistics.
pub fn commit_activity_url(owner: &str, repo: &str) -> (url: String)
    ensures
        url@ == activity_url(owner@, repo@),
{
    let mut url = String::from_str("https://api.github.com/repos/");
    url.append(owner);
    url.append("/");
    url.append(repo);
    url.append("/stats/commit_activity");
    url
}

/// What an upstream status means for the caller.
#[derive(Debug, Clone, Copy, PartialEq, Eq)]
pub enum ActivityStatus {
    /// 202: the statistics are being computed. Not an error; the caller
    /// answers with an empty heat map and a hint.
    Generating,
    /// Any other status in 200..=299: the body holds the weeks.
    Ready,
    /// Everything else: the body holds the upstream's complaint.
    Failed,
}

/// The meaning of an upstream status code.
pub open spec fn activity_status(status: u16) -> ActivityStatus {
    if status == 202 {
        ActivityStatus::Generating
    } else if 200 <= status <= 299 {
        ActivityStatus::Ready
    } else {
        ActivityStatus::Failed
    }
}

/// Classifies an upstream status code.
pub fn classify_activity_status(status: u16) -> (meaning: ActivityStatus)
    ensures
        meaning == activity_status(status),
{
    if status == 202 {
        ActivityStatus::Generating
    } else if 200 <= status && status <= 299 {
        ActivityStatus::Ready
    } else {
        ActivityStatus::Failed
    }
}

/// The answer given while GitHub is still computing: no weeks, and the hint
/// to come back later.
pub fn generating_heatmap(owner: String, repo: String) -> (heatmap: RepoCommitHeatmap)
    ensures
        heatmap.weeks@.len() == 0,
        heatmap.owner == owner,
        heatmap.repo == repo,
        heatmap.hint matches Some(hint) && hint@ == GENERATING_HINT@,
{
    RepoCommitHeatmap {
        weeks: Vec::new(),
        owner,
        repo,
        hint: Some(String::from_str(GENERATING_HINT)),
    }
}

/// The answer given once the weeks arrived: the weeks as they came, no hint.
pub fn ready_heatmap(weeks: Vec<Week>, owner: String, repo: String) -> (heatmap:
    RepoCommitHeatmap)
    ensures
        heatmap.weeks == weeks,
        heatmap.owner == owner,
        heatmap.repo == repo,
        heatmap.hint is None,
{
    RepoCommitHeatmap { weeks, owner, repo, hint: None }
}

/// The error text for a failed request: the status line and the body that
/// the upstream sent.
pub open spec fn activity_failure(status_line: Seq<char>, body: Seq<char>) -> Seq<char> {
    "GitHub API error: "@ + status_line + " "@ + body
}

/// Builds the error text for a failed request.
pub fn activity_error(status_line: &str, body: &str) -> (text: String)
    ensures
        text@ == activity_failure(status_line@, body@),
{
    let mut text = String::from_str("GitHub API error: ");
    text.append(status_line);
    text.append(" ");
    text.append(body);
    text
}

} // verus!
