//! The content-fetch tool: a web page as markdown.

use crate::ai_functions::{
    outcome_view, required_text, spec_required_text, AIFunction, AIFunctionParameter,
    AIFunctionParameterView, Invocation, InvocationView, ToolError, ToolErrorKind, ToolErrorView,
};
use crate::json::{
    empty_members, insert_member, no_members, null, object, text, JsonValue, JsonView,
};
use vstd::prelude::*;
use vstd::string::*;

verus! {

/// Converts a web page to markdown. The page itself is fetched outside the
/// library: [`AIFunction::execute`] checks the arguments and names the page,
/// [`WebsiteToMdFunction::complete`] turns what the fetch gave into the
/// tool's result.
#[derive(Clone, Copy, Debug, PartialEq, Eq)]
pub struct WebsiteToMdFunction;

/// Why a page could not be had.
#[derive(Debug, PartialEq, Eq)]
pub enum ScrapeFailure {
    /// The scraping client could not be set up.
    Client(String),
    /// The scrape itself failed.
    Scrape(String),
}

/// The model of a [`ScrapeFailure`].
pub enum ScrapeFailureView {
    Client(Seq<char>),
    Scrape(Seq<char>),
}

impl DeepView for ScrapeFailure {
    type V = ScrapeFailureView;

    open spec fn deep_view(&self) -> ScrapeFailureView {
        match self {
            ScrapeFailure::Client(why) => ScrapeFailureView::Client(why@),
            ScrapeFailure::Scrape(why) => ScrapeFailureView::Scrape(why@),
        }
    }
}

/// The view of what a fetch gave.
pub open spec fn scraped_view(scraped: Result<Option<String>, ScrapeFailure>) -> Result<
    Option<Seq<char>>,
    ScrapeFailureView,
> {
    match scraped {
        Ok(Some(markdown)) => Ok(Some(markdown@)),
        Ok(None) => Ok(None),
        Err(e) => Err(e.deep_view()),
    }
}

/// The markdown of a result: what the page gave, or a note that it gave
/// nothing.
pub open spec fn spec_markdown(markdown: Option<Seq<char>>) -> Seq<char> {
    match markdown {
        Some(m) => m,
        None => "No content found"@,
    }
}

/// The result for a fetched page.
pub open spec fn spec_page(url: Seq<char>, markdown: Option<Seq<char>>) -> JsonView {
    JsonView::Object(
        no_members().insert("url"@, JsonView::Text(url)).insert(
            "markdown"@,
            JsonView::Text(spec_markdown(markdown)),
        ).insert("title"@, JsonView::Null),
    )
}

/// The failure that a fetch ends in.
pub open spec fn spec_scrape_error(e: ScrapeFailureView) -> ToolErrorView {
    match e {
        ScrapeFailureView::Client(why) => ToolErrorView {
            kind: ToolErrorKind::Failed,
            detail: "Failed to create Firecrawl client: "@ + why,
        },
        ScrapeFailureView::Scrape(why) => ToolErrorView {
            kind: ToolErrorKind::Failed,
            detail: "Failed to scrape URL: "@ + why,
        },
    }
}

/// The tool's result for `url`, given what the fetch gave.
pub open spec fn spec_complete(
    url: Seq<char>,
    scraped: Result<Option<Seq<char>>, ScrapeFailureView>,
) -> Result<JsonView, ToolErrorView> {
    match scraped {
        Ok(markdown) => Ok(spec_page(url, markdown)),
        Err(e) => Err(spec_scrape_error(e)),
    }
}

/// What a call with these arguments comes to before any page is fetched: the
/// fetch of the page under `url`, or the fault of the arguments.
pub open spec fn spec_begin(args: JsonView) -> InvocationView {
    match spec_required_text(args, "url"@) {
        Ok(url) => InvocationView::Scrape { url },
        Err(e) => InvocationView::Finished(Err(e)),
    }
}

impl WebsiteToMdFunction {
    /// Completes a call once the fetch of `url` is over.
    pub fn complete(url: String, scraped: Result<Option<String>, ScrapeFailure>) -> (r: Result<
        JsonValue,
        ToolError,
    >)
        ensures
            outcome_view(r) == spec_complete(url@, scraped_view(scraped)),
    {
        match scraped {
            Ok(markdown) => {
                let markdown = match markdown {
                    Some(m) => m,
                    None => String::from_str("No content found"),
                };
                let mut members = empty_members();
                insert_member(&mut members, String::from_str("url"), text(url));
                insert_member(&mut members, String::from_str("markdown"), text(markdown));
                insert_member(&mut members, String::from_str("title"), null());
                Ok(object(members))
            },
            Err(ScrapeFailure::Client(why)) => {
                let mut detail = String::from_str("Failed to create Firecrawl client: ");
                detail.append(why.as_str());
                Err(ToolError { kind: ToolErrorKind::Failed, detail })
            },
            Err(ScrapeFailure::Scrape(why)) => {
                let mut detail = String::from_str("Failed to scrape URL: ");
                detail.append(why.as_str());
                Err(ToolError { kind: ToolErrorKind::Failed, detail })
            },
        }
    }
}

impl AIFunction for WebsiteToMdFunction {
    open spec fn spec_name(&self) -> Seq<char> {
        "website_to_md"@
    }

    open spec fn spec_description(&self) -> Seq<char> {
        "Convert a website to markdown format using Firecrawl"@
    }

    open spec fn spec_parameters(&self) -> Seq<(Seq<char>, AIFunctionParameterView)> {
        seq![
            (
                "url"@,
                AIFunctionParameterView {
                    param_type: "string"@,
                    description: "The URL of the website to convert to markdown"@,
                    required: true,
                },
            ),
        ]
    }

    open spec fn spec_execute(&self, args: JsonView, outcome: InvocationView) -> bool {
        outcome == spec_begin(args)
    }

    fn name(&self) -> (r: &'static str) {
        "website_to_md"
    }

    fn description(&self) -> (r: &'static str) {
        "Convert a website to markdown format using Firecrawl"
    }

    fn parameters(&self) -> (r: Vec<(String, AIFunctionParameter)>) {
        let mut params: Vec<(String, AIFunctionParameter)> = Vec::new();
        params.push(
            (
                String::from_str("url"),
                AIFunctionParameter::new(
                    "string",
                    "The URL of the website to convert to markdown",
                    true,
                ),
            ),
        );
        assert(params.deep_view() =~= self.spec_parameters());
        params
    }

    /// Checks the arguments and names the page to fetch.
    fn execute(&self, args: &JsonValue) -> (r: Invocation) {
        match required_text(args, "url") {
            Ok(url) => Invocation::Scrape { url },
            Err(e) => Invocation::Finished(Err(e)),
        }
    }
}

} // verus!
