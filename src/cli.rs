use vstd::prelude::*;
use crate::text::str_eq;
use crate::window::{Period, period_named};

verus! {

/// The parsed command line: one subcommand, or none to show the help.
pub struct Cli {
    pub command: Option<Commands>,
}

/// The subcommands of the tool.
pub enum Commands {
    /// Search recent tweets
    Search(SearchArgs),
    /// Monitor X in real-time (polls on interval)
    Watch(WatchArgs),
    /// Track follower/following changes over time
    Diff(DiffArgs),
    /// Generate intelligence report with AI analysis
    Report(ReportArgs),
    /// Fetch full conversation thread
    Thread(ThreadArgs),
    /// Recent tweets from a user
    Profile(ProfileArgs),
    /// Fetch a single tweet
    Tweet(TweetArgs),
    /// Fetch and read full article content from a URL
    Article(ArticleArgs),
    /// Fetch your bookmarked tweets (OAuth required)
    Bookmarks(BookmarksArgs),
    /// Bookmark a tweet (OAuth required)
    Bookmark(BookmarkArgs),
    /// Remove a bookmark (OAuth required)
    Unbookmark(UnbookmarkArgs),
    /// Fetch your liked tweets (OAuth required)
    Likes(LikesArgs),
    /// Like a tweet (OAuth required)
    Like(LikeArgs),
    /// Unlike a tweet (OAuth required)
    Unlike(UnlikeArgs),
    /// List accounts you follow (OAuth required)
    Following(FollowingArgs),
    /// Fetch trending topics
    Trends(TrendsArgs),
    /// Analyze with Grok AI (xAI)
    Analyze(AnalyzeArgs),
    /// View API cost tracking & budget
    Costs(CostsArgs),
    /// Manage watchlist
    Watchlist(WatchlistArgs),
    /// OAuth 2.0 PKCE authentication
    Auth(AuthArgs),
    /// Cache management
    Cache(CacheArgs),
    /// xAI X Search (Responses API - no cookies/GraphQL)
    XSearch(XSearchArgs),
    /// xAI Collections knowledge base management
    Collections(CollectionsArgs),
    /// Start MCP server for AI agents
    Mcp(McpArgs),
}

/// Options of the `Search` subcommand.
pub struct SearchArgs {
    /// Search query
    pub query: Vec<String>,
    /// Sort order: likes, impressions, retweets, recent
    pub sort: String,
    /// Filter by minimum likes
    pub min_likes: u64,
    /// Filter by minimum impressions
    pub min_impressions: u64,
    /// Pages to fetch (1-5)
    pub pages: u32,
    /// Max results to display
    pub limit: usize,
    /// Time filter (1h, 3h, 12h, 1d, 7d)
    pub since: Option<String>,
    /// End time filter (full-archive only)
    pub until: Option<String>,
    /// Full-archive search
    pub full: bool,
    /// Exclude replies
    pub no_replies: bool,
    /// Exclude retweets
    pub no_retweets: bool,
    /// Quick mode: 1 page, max 10, noise filter, 1hr cache
    pub quick: bool,
    /// Pre-filter low-engagement tweets (min 10 likes)
    pub quality: bool,
    /// Shorthand for from:username
    pub from: Option<String>,
    /// AI sentiment analysis via Grok
    pub sentiment: bool,
    /// Save results to data/exports/
    pub save: bool,
    /// Raw JSON output
    pub json: bool,
    /// JSONL output (one tweet per line)
    pub jsonl: bool,
    /// CSV output
    pub csv: bool,
    /// Markdown output
    pub markdown: bool,
}

/// Options of the `Watch` subcommand.
pub struct WatchArgs {
    /// Search query
    pub query: Vec<String>,
    /// Polling interval: 30s, 5m, 1h
    pub interval: String,
    /// POST new tweets to this URL
    pub webhook: Option<String>,
    /// Max tweets per poll
    pub limit: usize,
    /// Initial time window
    pub since: String,
    /// Suppress per-poll headers
    pub quiet: bool,
    /// Output JSONL
    pub jsonl: bool,
}

/// Options of the `Diff` subcommand.
pub struct DiffArgs {
    /// Username to track
    pub username: Option<String>,
    /// Track following instead of followers
    pub following: bool,
    /// Show snapshot history
    pub history: bool,
    /// Output as JSON
    pub json: bool,
    /// Max pages to fetch (default: 5)
    pub pages: u32,
}

/// Options of the `Report` subcommand.
pub struct ReportArgs {
    /// Report topic
    pub topic: Vec<String>,
    /// Comma-separated accounts to track
    pub accounts: Option<String>,
    /// Include sentiment analysis
    pub sentiment: bool,
    /// Grok model
    pub model: String,
    /// Search pages
    pub pages: u32,
    /// Save report
    pub save: bool,
}

/// Options of the `Thread` subcommand.
pub struct ThreadArgs {
    /// Tweet ID
    pub tweet_id: String,
    /// Pages to fetch
    pub pages: u32,
}

/// Options of the `Profile` subcommand.
pub struct ProfileArgs {
    /// Username
    pub username: String,
    /// Number of tweets
    pub count: u32,
    /// Include replies
    pub replies: bool,
    /// JSON output
    pub json: bool,
}

/// Options of the `Tweet` subcommand.
pub struct TweetArgs {
    /// Tweet ID
    pub tweet_id: String,
    /// JSON output
    pub json: bool,
}

/// Options of the `Article` subcommand.
pub struct ArticleArgs {
    /// URL to fetch article from (or X tweet URL for auto-extraction)
    pub url: String,
    /// JSON output
    pub json: bool,
    /// Full article text (no truncation)
    pub full: bool,
    /// Grok model (default: grok-4 for article fetching)
    pub model: String,
    /// Analyze article with Grok AI - ask a question about the content
    pub ai: Option<String>,
}

/// Options of the `Bookmarks` subcommand.
pub struct BookmarksArgs {
    /// Max bookmarks to display
    pub limit: usize,
    /// Filter by recency
    pub since: Option<String>,
    /// Client-side text filter
    pub query: Option<String>,
    /// JSON output
    pub json: bool,
    /// Markdown output
    pub markdown: bool,
    /// Save to exports
    pub save: bool,
    /// Skip cache
    pub no_cache: bool,
}

/// Options of the `Bookmark` subcommand.
pub struct BookmarkArgs {
    /// Tweet ID to bookmark
    pub tweet_id: String,
}

/// Options of the `Unbookmark` subcommand.
pub struct UnbookmarkArgs {
    /// Tweet ID to unbookmark
    pub tweet_id: String,
}

/// Options of the `Likes` subcommand.
pub struct LikesArgs {
    /// Max likes to display
    pub limit: usize,
    /// Filter by recency
    pub since: Option<String>,
    /// Client-side text filter
    pub query: Option<String>,
    /// JSON output
    pub json: bool,
    /// Markdown output
    pub markdown: bool,
    /// Skip cache
    pub no_cache: bool,
}

/// Options of the `Like` subcommand.
pub struct LikeArgs {
    /// Tweet ID to like
    pub tweet_id: String,
}

/// Options of the `Unlike` subcommand.
pub struct UnlikeArgs {
    /// Tweet ID to unlike
    pub tweet_id: String,
}

/// Options of the `Following` subcommand.
pub struct FollowingArgs {
    /// Username (defaults to authenticated user)
    pub username: Option<String>,
    /// Max accounts to display
    pub limit: usize,
    /// JSON output
    pub json: bool,
}

/// Options of the `Trends` subcommand.
pub struct TrendsArgs {
    /// Location name or WOEID
    pub location: Option<Vec<String>>,
    /// Number of trends to display
    pub limit: usize,
    /// JSON output
    pub json: bool,
    /// Bypass cache
    pub no_cache: bool,
    /// List known locations
    pub locations: bool,
}

/// Options of the `Analyze` subcommand.
pub struct AnalyzeArgs {
    /// Query or question
    pub query: Vec<String>,
    /// Grok model
    pub model: String,
    /// Custom system prompt
    pub system: Option<String>,
    /// Analyze tweets from JSON file
    pub tweets: Option<String>,
    /// Read tweet JSON from stdin
    pub pipe: bool,
}

/// Options of the `Costs` subcommand.
pub struct CostsArgs {
    /// Subcommand: today, week, month, all, budget, reset
    pub subcommand: Option<Vec<String>>,
}

/// Options of the `Watchlist` subcommand.
pub struct WatchlistArgs {
    /// Subcommand: add, remove, check, or empty for list
    pub subcommand: Option<Vec<String>>,
}

/// Options of the `Auth` subcommand.
pub struct AuthArgs {
    /// Subcommand: setup, status, refresh
    pub subcommand: Option<String>,
    /// Manual mode for auth setup
    pub manual: bool,
}

/// Options of the `Cache` subcommand.
pub struct CacheArgs {
    /// Subcommand: clear
    pub subcommand: Option<String>,
}

/// Options of the `x-search` subcommand.
pub struct XSearchArgs {
    /// Workspace root (for memory candidate dedup)
    pub workspace: String,
    /// JSON file with queries: {"queries": [...]} or [...]
    pub queries_file: String,
    /// Path to write markdown report
    pub out_md: String,
    /// Path to write raw JSON payload
    pub out_json: String,
    /// Append new memory candidates (deduped by source)
    pub emit_candidates: bool,
    /// Candidate JSONL output path
    pub candidates_out: String,
    /// xAI model
    pub model: String,
    /// Max search results per query
    pub max_results: u32,
    /// Timeout in seconds per query
    pub timeout_seconds: u32,
    /// From date filter (YYYY-MM-DD)
    pub from_date: Option<String>,
    /// To date filter (YYYY-MM-DD)
    pub to_date: Option<String>,
}

/// Options of the `Collections` subcommand.
pub struct CollectionsArgs {
    /// Subcommand: list, create, ensure, add-document, upload, search, sync-dir
    pub subcommand: Option<Vec<String>>,
    /// Top-K results for document search
    pub top_k: u32,
}

/// Options of the `Mcp` subcommand.
pub struct McpArgs {
    /// Run in SSE mode (HTTP server)
    pub sse: bool,
    /// Port for SSE mode (default: 3000)
    pub port: u16,
}

/// What a `costs` command line asks for.
pub enum CostsAction {
    /// The report of a window.
    Summary(Period),
    /// The limit against the all-time spending.
    ShowBudget,
    /// A new limit, as the dollar amount that was typed.
    SetBudget(String),
    /// Clearing the entries.
    Reset,
    /// Words that name no action.
    Invalid,
}

/// The words after `costs`, as text.
pub open spec fn costs_words(args: CostsArgs) -> Seq<Seq<char>> {
    match args.subcommand {
        None => Seq::empty(),
        Some(v) => v@.map_values(|w: String| w@),
    }
}

proof fn lemma_window_names_are_not_commands(n: Seq<char>)
    requires
        period_named(n) is Some,
    ensures
        n != "budget"@,
        n != "reset"@,
{
    reveal_strlit("today");
    reveal_strlit("week");
    reveal_strlit("month");
    reveal_strlit("all");
    reveal_strlit("budget");
    reveal_strlit("reset");
    assert(n[0] != "reset"@[0]);
}

impl CostsArgs {
    /// Reads the words after `costs`: none is today's report; `today`, `week`,
    /// `month` or `all` a report; `budget` the budget status and
    /// `budget set <dollars>` a new limit; `reset` clears the entries.
    pub fn action(&self) -> (r: CostsAction)
        ensures
            ({
                let w = costs_words(*self);
                &&& w.len() == 0 ==> r == CostsAction::Summary(Period::Today)
                &&& w.len() > 0 && period_named(w[0]) is Some ==> r == CostsAction::Summary(
                    period_named(w[0])->0,
                )
                &&& w.len() > 0 && w[0] == "budget"@ && !(w.len() > 1 && w[1] == "set"@) ==> r
                    == CostsAction::ShowBudget
                &&& w.len() > 2 && w[0] == "budget"@ && w[1] == "set"@ ==> r is SetBudget && r->SetBudget_0@
                    == w[2]
                &&& w.len() == 2 && w[0] == "budget"@ && w[1] == "set"@ ==> r == CostsAction::Invalid
                &&& w.len() > 0 && w[0] == "reset"@ ==> r == CostsAction::Reset
                &&& w.len() > 0 && period_named(w[0]) is None && w[0] != "budget"@ && w[0]
                    != "reset"@ ==> r == CostsAction::Invalid
            }),
    {
        let ghost w = costs_words(*self);
        proof {
            reveal_strlit("today");
            reveal_strlit("week");
            reveal_strlit("month");
            reveal_strlit("all");
            reveal_strlit("budget");
            reveal_strlit("reset");
        }
        match &self.subcommand {
            None => CostsAction::Summary(Period::Today),
            Some(words) => {
                assert(w == words@.map_values(|s: String| s@));
                if words.len() == 0 {
                    return CostsAction::Summary(Period::Today);
                }
                assert(words[0]@ == w[0]);
                let first = words[0].as_str();
                if let Some(p) = Period::parse(first) {
                    proof {
                        lemma_window_names_are_not_commands(w[0]);
                    }
                    return CostsAction::Summary(p);
                }
                if str_eq(first, "budget") {
                    if words.len() > 1 && str_eq(words[1].as_str(), "set") {
                        assert(words[1]@ == w[1]);
                        if words.len() > 2 {
                            assert(words[2]@ == w[2]);
                            return CostsAction::SetBudget(words[2].clone());
                        }
                        return CostsAction::Invalid;
                    }
                    proof {
                        if w.len() > 1 {
                            assert(words[1]@ == w[1]);
                        }
                    }
                    return CostsAction::ShowBudget;
                }
                if str_eq(first, "reset") {
                    return CostsAction::Reset;
                }
                CostsAction::Invalid
            },
        }
    }
}

} // verus!
