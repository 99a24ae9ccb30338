//! The indexer-facing side of the service: the GraphQL requests it sends, how
//! the outcome of a request becomes the answer, and the layout of its routes.
use vstd::prelude::*;
use crate::error_logging::{error_json, throw_json_error};
use crate::text::str_views;

verus! {

/// The part of a single-collection request before the collection's id.
pub const COLLECTION_QUERY_HEAD: &'static str = "{\n\"query\": \"{tokenContract(id: \\\"";

/// The part of a single-collection request after the collection's id: its
/// name, counts, and its tokens in order of minting.
pub const COLLECTION_QUERY_TAIL: &'static str = "\\\") {id name numTokens numOwners tokens(orderBy:mintTime,orderDirection: asc){ id tokenURI tokenID mintTime owner { id }}}}\"}";

/// The request body that asks the indexer for one collection.
pub open spec fn collection_query_text(name: Seq<char>) -> Seq<char> {
    COLLECTION_QUERY_HEAD@ + name + COLLECTION_QUERY_TAIL@
}

/// The request body that asks the indexer for the collection `name`; the name
/// is written into the request as it is.
pub fn collection_query(name: &str) -> (res: String)
    ensures
        res@ == collection_query_text(name@),
{
    let mut res = String::new();
    res.append(COLLECTION_QUERY_HEAD);
    res.append(name);
    res.append(COLLECTION_QUERY_TAIL);
    res
}

/// How a request to the indexer ended.
#[derive(Debug)]
pub enum PostOutcome {
    /// The request could not be sent.
    SendFailed,
    /// The request was answered but its body could not be read.
    ReadFailed,
    /// The body of the answer.
    Body(String),
}

/// The report for a request to the indexer that failed at `line_num`, with
/// the request's own step added to the caller's chain.
pub open spec fn post_error(origin: Seq<Seq<char>>, line_num: Seq<char>, err_type: Seq<char>) -> Seq<char> {
    error_json("reqwest"@, origin.push("make_post_reqwest"@), "main"@, line_num, err_type)
}

/// The answer to a request to the indexer made on behalf of the call chain
/// `origin`: the body, or the report of the step that failed.
pub fn post_request_result(origin: Vec<&str>, outcome: PostOutcome) -> (res: Result<String, String>)
    ensures
        match outcome {
            PostOutcome::SendFailed => res matches Err(e) && e@ == post_error(
                str_views(origin@),
                "28"@,
                "failed to send POST request to graphql indexer"@,
            ),
            PostOutcome::ReadFailed => res matches Err(e) && e@ == post_error(
                str_views(origin@),
                "42"@,
                "failed to extract text from graphql indexer response"@,
            ),
            PostOutcome::Body(b) => res matches Ok(t) && t@ == b@,
        },
{
    let mut chain = origin;
    chain.push("make_post_reqwest");
    assert(str_views(chain@) =~= str_views(origin@).push("make_post_reqwest"@));
    match outcome {
        PostOutcome::SendFailed => Err(throw_json_error(
            "reqwest",
            &chain,
            "main",
            "28",
            "failed to send POST request to graphql indexer",
        )),
        PostOutcome::ReadFailed => Err(throw_json_error(
            "reqwest",
            &chain,
            "main",
            "42",
            "failed to extract text from graphql indexer response",
        )),
        PostOutcome::Body(b) => Ok(b),
    }
}

/// An HTTP method of a route.
#[derive(PartialEq, Eq, Structural, Clone, Copy, Debug)]
pub enum Method {
    Get,
    Post,
}

/// A route: its method and its path pattern.
#[derive(Debug)]
pub struct RouteSpec {
    pub method: Method,
    pub path: String,
}

impl View for RouteSpec {
    type V = (Method, Seq<char>);

    open spec fn view(&self) -> (Method, Seq<char>) {
        (self.method, self.path@)
    }
}

/// A fairing that the service attaches.
#[derive(PartialEq, Eq, Structural, Clone, Copy, Debug)]
pub enum Fairing {
    /// The cross-origin response headers.
    Cors,
    /// The database stage (pool, migrations and order routes).
    DieselPostgresStage,
    /// The pool of database connections.
    OrdersDbPool,
    /// The run of the pending database migrations at ignition.
    DieselMigrations,
}

/// One step of building the service, in the order the steps are taken.
#[derive(Debug)]
pub enum BuildStep {
    /// Attach a fairing.
    Attach(Fairing),
    /// Mount a route at the layout's base.
    Mount(RouteSpec),
}

/// The view of a build step.
pub enum StepView {
    Attach(Fairing),
    Mount(Method, Seq<char>),
}

impl View for BuildStep {
    type V = StepView;

    open spec fn view(&self) -> StepView {
        match self {
            BuildStep::Attach(f) => StepView::Attach(*f),
            BuildStep::Mount(r) => StepView::Mount(r.method, r.path@),
        }
    }
}

/// How the service, or a stage of it, is built: the steps in order, routes
/// being mounted at `base`.
#[derive(Debug)]
pub struct ServiceLayout {
    pub base: String,
    pub steps: Vec<BuildStep>,
}

/// The views of a list of build steps.
pub open spec fn step_views(steps: Seq<BuildStep>) -> Seq<StepView> {
    steps.map_values(|s: BuildStep| s@)
}

fn mount(method: Method, path: &str) -> (res: BuildStep)
    ensures
        res@ == StepView::Mount(method, path@),
{
    BuildStep::Mount(RouteSpec { method, path: path.to_string() })
}

/// How the service is built: the cross-origin fairing is attached, the
/// collection listings of the indexer and the health check are mounted at
/// `/`, and the database stage is attached; nothing else is mounted.
pub fn rocket() -> (res: ServiceLayout)
    ensures
        res.base@ == "/"@,
        step_views(res.steps@) == seq![
            StepView::Attach(Fairing::Cors),
            StepView::Mount(Method::Get, "/collections"@),
            StepView::Mount(Method::Get, "/collection/<name>"@),
            StepView::Mount(Method::Get, "/lyracollections"@),
            StepView::Mount(Method::Get, "/health-check"@),
            StepView::Attach(Fairing::DieselPostgresStage),
        ],
{
    let mut steps = Vec::new();
    steps.push(BuildStep::Attach(Fairing::Cors));
    steps.push(mount(Method::Get, "/collections"));
    steps.push(mount(Method::Get, "/collection/<name>"));
    steps.push(mount(Method::Get, "/lyracollections"));
    steps.push(mount(Method::Get, "/health-check"));
    steps.push(BuildStep::Attach(Fairing::DieselPostgresStage));
    assert(step_views(steps@) =~= seq![
        StepView::Attach(Fairing::Cors),
        StepView::Mount(Method::Get, "/collections"@),
        StepView::Mount(Method::Get, "/collection/<name>"@),
        StepView::Mount(Method::Get, "/lyracollections"@),
        StepView::Mount(Method::Get, "/health-check"@),
        StepView::Attach(Fairing::DieselPostgresStage),
    ]);
    ServiceLayout { base: "/".to_string(), steps }
}

/// How the database stage is built at ignition: the connection pool is
/// attached, then the migration run, and the submission of maker orders is
/// mounted at `/`.
pub fn stage_layout() -> (res: ServiceLayout)
    ensures
        res.base@ == "/"@,
        step_views(res.steps@) == seq![
            StepView::Attach(Fairing::OrdersDbPool),
            StepView::Attach(Fairing::DieselMigrations),
            StepView::Mount(Method::Post, "/makeorder"@),
        ],
{
    let mut steps = Vec::new();
    steps.push(BuildStep::Attach(Fairing::OrdersDbPool));
    steps.push(BuildStep::Attach(Fairing::DieselMigrations));
    steps.push(mount(Method::Post, "/makeorder"));
    assert(step_views(steps@) =~= seq![
        StepView::Attach(Fairing::OrdersDbPool),
        StepView::Attach(Fairing::DieselMigrations),
        StepView::Mount(Method::Post, "/makeorder"@),
    ]);
    ServiceLayout { base: "/".to_string(), steps }
}

} // verus!
