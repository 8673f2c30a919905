//! What a subcommand asks of the directory: the search request, how its
//! result is shown, and the status lines that go with it.

use vstd::prelude::*;
use vstd::string::*;
use crate::attributes::{all_attributes, attribute_names, resolve_attributes};
use crate::error::{ClientError, ErrorKind, ErrorView};
use crate::scope::{invalid_scope_text, resolve_scope, scope_of_token, Scope};
use crate::text::texts;

verus! {

/// Where to connect, as whom, and below which entry to search.
#[derive(Clone, Debug, PartialEq, Eq)]
pub struct ConnectionParameters {
    pub url: String,
    pub bind_dn: String,
    pub password: String,
    pub base_dn: String,
}

/// What connection parameters hold.
pub struct ParametersView {
    pub url: Seq<char>,
    pub bind_dn: Seq<char>,
    pub password: Seq<char>,
    pub base_dn: Seq<char>,
}

impl View for ConnectionParameters {
    type V = ParametersView;

    open spec fn view(&self) -> ParametersView {
        ParametersView {
            url: self.url@,
            bind_dn: self.bind_dn@,
            password: self.password@,
            base_dn: self.base_dn@,
        }
    }
}

/// One search: the base entry, how far below it to look, the filter, and the
/// attributes to return.
#[derive(Clone, Debug, PartialEq, Eq)]
pub struct SearchRequest {
    pub base_dn: String,
    pub scope: Scope,
    pub filter: String,
    pub attributes: Vec<String>,
}

/// What a search request holds.
pub struct RequestView {
    pub base_dn: Seq<char>,
    pub scope: Scope,
    pub filter: Seq<char>,
    pub attributes: Seq<Seq<char>>,
}

impl View for SearchRequest {
    type V = RequestView;

    open spec fn view(&self) -> RequestView {
        RequestView {
            base_dn: self.base_dn@,
            scope: self.scope,
            filter: self.filter@,
            attributes: texts(self.attributes@),
        }
    }
}

/// A subcommand with its options, as given on the command line.
#[derive(Clone, Debug, PartialEq, Eq)]
pub enum Command {
    /// A search with a filter, an optional attribute list, a scope token and
    /// an output mode.
    Search { filter: String, attributes: Option<String>, scope: String, output: String },
    /// The list of users.
    Users { output: String },
    /// The list of groups.
    Groups { output: String },
    /// A check that the server can be reached and answers.
    Test,
}

/// What a subcommand holds.
pub enum CommandView {
    Search { filter: Seq<char>, attributes: Option<Seq<char>>, scope: Seq<char>, output: Seq<char> },
    Users { output: Seq<char> },
    Groups { output: Seq<char> },
    Test,
}

impl View for Command {
    type V = CommandView;

    open spec fn view(&self) -> CommandView {
        match self {
            Command::Search { filter, attributes, scope, output } => CommandView::Search {
                filter: filter@,
                attributes: match attributes {
                    Some(csv) => Some(csv@),
                    None => None,
                },
                scope: scope@,
                output: output@,
            },
            Command::Users { output } => CommandView::Users { output: output@ },
            Command::Groups { output } => CommandView::Groups { output: output@ },
            Command::Test => CommandView::Test,
        }
    }
}

/// How the result of a search is shown.
#[derive(Clone, Debug, PartialEq, Eq)]
pub enum Presentation {
    /// The entries, rendered in the output mode of this name.
    Render(String),
    /// The number of entries alone.
    Count,
}

/// What a presentation holds.
pub enum PresentationView {
    Render(Seq<char>),
    Count,
}

impl View for Presentation {
    type V = PresentationView;

    open spec fn view(&self) -> PresentationView {
        match self {
            Presentation::Render(mode) => PresentationView::Render(mode@),
            Presentation::Count => PresentationView::Count,
        }
    }
}

/// The work of one invocation: the request, how its result is shown, the
/// lines printed before connecting and the lines printed before searching.
#[derive(Clone, Debug, PartialEq, Eq)]
pub struct Job {
    pub request: SearchRequest,
    pub presentation: Presentation,
    pub preamble: Vec<String>,
    pub announcement: Vec<String>,
}

/// What a job holds.
pub struct JobView {
    pub request: RequestView,
    pub presentation: PresentationView,
    pub preamble: Seq<Seq<char>>,
    pub announcement: Seq<Seq<char>>,
}

impl View for Job {
    type V = JobView;

    open spec fn view(&self) -> JobView {
        JobView {
            request: self.request@,
            presentation: self.presentation@,
            preamble: texts(self.preamble@),
            announcement: texts(self.announcement@),
        }
    }
}

/// A list of strings as the standard library's `{:?}` writes it.
pub uninterp spec fn list_debug_text(items: Seq<Seq<char>>) -> Seq<char>;

/// `{:?}` formatting of a `Vec<String>` by the standard library. The text
/// depends on the strings alone; `list_debug_text` is its name.
#[verifier::external_body]
fn debug_text(items: &Vec<String>) -> (r: String)
    ensures
        r@ == list_debug_text(texts(items@)),
{
    format!("{:?}", items)
}

/// The request of the users listing: the whole subtree, every
/// `inetOrgPerson`, five attributes.
pub open spec fn users_request(base_dn: Seq<char>) -> RequestView {
    RequestView {
        base_dn,
        scope: Scope::Subtree,
        filter: "(objectClass=inetOrgPerson)"@,
        attributes: seq!["cn"@, "sn"@, "givenName"@, "mail"@, "uid"@],
    }
}

/// The request of the groups listing: the whole subtree, every
/// `groupOfNames`, three attributes.
pub open spec fn groups_request(base_dn: Seq<char>) -> RequestView {
    RequestView {
        base_dn,
        scope: Scope::Subtree,
        filter: "(objectClass=groupOfNames)"@,
        attributes: seq!["cn"@, "description"@, "member"@],
    }
}

/// The request of the connection check: the base entry alone, whatever it is,
/// with every attribute.
pub open spec fn probe_request(base_dn: Seq<char>) -> RequestView {
    RequestView {
        base_dn,
        scope: Scope::Base,
        filter: "(objectClass=*)"@,
        attributes: all_attributes(),
    }
}

/// The request of a search with the given options, if the scope token names a
/// scope.
pub open spec fn search_request(
    base_dn: Seq<char>,
    filter: Seq<char>,
    attributes: Option<Seq<char>>,
    scope: Seq<char>,
) -> Option<RequestView> {
    match scope_of_token(scope) {
        Some(scope) => Some(
            RequestView { base_dn, scope, filter, attributes: attribute_names(attributes) },
        ),
        None => None,
    }
}

/// The lines that announce a search: filter, base, scope token, attributes,
/// and an empty line.
pub open spec fn announcement(request: RequestView, scope_token: Seq<char>) -> Seq<Seq<char>> {
    seq![
        "Searching with filter: "@ + request.filter,
        "Base DN: "@ + request.base_dn,
        "Scope: "@ + scope_token,
        "Attributes: "@ + list_debug_text(request.attributes),
        Seq::empty(),
    ]
}

/// The lines that open a connection check.
pub open spec fn probe_preamble(params: ParametersView) -> Seq<Seq<char>> {
    seq![
        "Testing connection to LDAP server..."@,
        "URL: "@ + params.url,
        "Bind DN: "@ + params.bind_dn,
    ]
}

/// The job of a listing or search with the given request.
pub open spec fn search_job(request: RequestView, scope_token: Seq<char>, output: Seq<char>) -> JobView {
    JobView {
        request,
        presentation: PresentationView::Render(output),
        preamble: Seq::empty(),
        announcement: announcement(request, scope_token),
    }
}

/// The job that a subcommand stands for, or the error for its scope token.
/// The listings and the connection check fix scope, filter and attributes
/// whatever else was given; the output mode is not looked at here.
pub open spec fn planned(command: CommandView, params: ParametersView) -> Result<JobView, ErrorView> {
    match command {
        CommandView::Search { filter, attributes, scope, output } => match search_request(
            params.base_dn,
            filter,
            attributes,
            scope,
        ) {
            Some(request) => Ok(search_job(request, scope, output)),
            None => Err(
                ErrorView {
                    kind: ErrorKind::InvalidScope,
                    context: invalid_scope_text(scope),
                    cause: None,
                },
            ),
        },
        CommandView::Users { output } => Ok(
            search_job(users_request(params.base_dn), "sub"@, output),
        ),
        CommandView::Groups { output } => Ok(
            search_job(groups_request(params.base_dn), "sub"@, output),
        ),
        CommandView::Test => Ok(
            JobView {
                request: probe_request(params.base_dn),
                presentation: PresentationView::Count,
                preamble: probe_preamble(params),
                announcement: Seq::empty(),
            },
        ),
    }
}

/// The listings ask for the whole subtree with their own filter and
/// attributes, whatever the output mode and the connection parameters are.
pub proof fn lemma_listings_are_fixed(params: ParametersView, output: Seq<char>)
    ensures
        planned(CommandView::Users { output }, params) matches Ok(job) && job.request
            == users_request(params.base_dn) && job.request.scope == Scope::Subtree,
        planned(CommandView::Groups { output }, params) matches Ok(job) && job.request
            == groups_request(params.base_dn) && job.request.scope == Scope::Subtree,
{
}

fn push_name(names: &mut Vec<String>, name: &str)
    ensures
        texts(final(names)@) == texts(old(names)@).push(name@),
{
    names.push(String::from_str(name));
    assert(texts(final(names)@) =~= texts(old(names)@).push(name@));
}

impl SearchRequest {
    /// A copy that holds the same request.
    pub fn copy(&self) -> (copy: SearchRequest)
        ensures
            copy@ == self@,
    {
        SearchRequest {
            base_dn: self.base_dn.clone(),
            scope: self.scope,
            filter: self.filter.clone(),
            attributes: crate::text::copy_texts(&self.attributes),
        }
    }

    /// The request of the users listing below a base entry.
    pub fn users(base_dn: &str) -> (request: SearchRequest)
        ensures
            request@ == users_request(base_dn@),
    {
        let mut attributes: Vec<String> = Vec::new();
        push_name(&mut attributes, "cn");
        push_name(&mut attributes, "sn");
        push_name(&mut attributes, "givenName");
        push_name(&mut attributes, "mail");
        push_name(&mut attributes, "uid");
        assert(texts(attributes@) =~= seq!["cn"@, "sn"@, "givenName"@, "mail"@, "uid"@]);
        SearchRequest {
            base_dn: String::from_str(base_dn),
            scope: Scope::Subtree,
            filter: String::from_str("(objectClass=inetOrgPerson)"),
            attributes,
        }
    }

    /// The request of the groups listing below a base entry.
    pub fn groups(base_dn: &str) -> (request: SearchRequest)
        ensures
            request@ == groups_request(base_dn@),
    {
        let mut attributes: Vec<String> = Vec::new();
        push_name(&mut attributes, "cn");
        push_name(&mut attributes, "description");
        push_name(&mut attributes, "member");
        assert(texts(attributes@) =~= seq!["cn"@, "description"@, "member"@]);
        SearchRequest {
            base_dn: String::from_str(base_dn),
            scope: Scope::Subtree,
            filter: String::from_str("(objectClass=groupOfNames)"),
            attributes,
        }
    }

    /// The request of the connection check on a base entry.
    pub fn probe(base_dn: &str) -> (request: SearchRequest)
        ensures
            request@ == probe_request(base_dn@),
    {
        SearchRequest {
            base_dn: String::from_str(base_dn),
            scope: Scope::Base,
            filter: String::from_str("(objectClass=*)"),
            attributes: resolve_attributes(None),
        }
    }

    /// The request of a search with the given options. An unknown scope token
    /// is rejected with `InvalidScope`; filter and attribute names are taken
    /// as they are.
    pub fn search(base_dn: &str, filter: &str, attributes: Option<&str>, scope: &str) -> (r: Result<
        SearchRequest,
        ClientError,
    >)
        ensures
            match r {
                Ok(request) => search_request(
                    base_dn@,
                    filter@,
                    match attributes {
                        Some(csv) => Some(csv@),
                        None => None,
                    },
                    scope@,
                ) == Some(request@),
                Err(e) => {
                    &&& scope_of_token(scope@) is None
                    &&& e.kind == ErrorKind::InvalidScope
                    &&& e.context@ == invalid_scope_text(scope@)
                    &&& e.cause is None
                },
            },
    {
        match resolve_scope(scope) {
            Ok(scope) => Ok(
                SearchRequest {
                    base_dn: String::from_str(base_dn),
                    scope,
                    filter: String::from_str(filter),
                    attributes: resolve_attributes(attributes),
                },
            ),
            Err(e) => Err(e),
        }
    }
}

fn announce(request: &SearchRequest, scope_token: &str) -> (lines: Vec<String>)
    ensures
        texts(lines@) == announcement(request@, scope_token@),
{
    let mut lines: Vec<String> = Vec::new();
    let mut line = String::from_str("Searching with filter: ");
    line.append(request.filter.as_str());
    lines.push(line);
    let mut line = String::from_str("Base DN: ");
    line.append(request.base_dn.as_str());
    lines.push(line);
    let mut line = String::from_str("Scope: ");
    line.append(scope_token);
    lines.push(line);
    let mut line = String::from_str("Attributes: ");
    line.append(debug_text(&request.attributes).as_str());
    lines.push(line);
    lines.push(String::new());
    assert(texts(lines@) =~= announcement(request@, scope_token@));
    lines
}

fn job_of(request: SearchRequest, scope_token: &str, output: &str) -> (job: Job)
    ensures
        job@ == search_job(request@, scope_token@, output@),
{
    let announcement = announce(&request, scope_token);
    let preamble: Vec<String> = Vec::new();
    assert(texts(preamble@) =~= Seq::<Seq<char>>::empty());
    Job {
        request,
        presentation: Presentation::Render(String::from_str(output)),
        preamble,
        announcement,
    }
}

/// Works out the job of a subcommand: the request it issues, how the result
/// is shown, and the status lines. Fails only for a search with an unknown
/// scope token.
pub fn plan(command: &Command, params: &ConnectionParameters) -> (r: Result<Job, ClientError>)
    ensures
        match r {
            Ok(job) => planned(command@, params@) == Ok::<JobView, ErrorView>(job@),
            Err(e) => planned(command@, params@) == Err::<JobView, ErrorView>(e@),
        },
{
    let base_dn = params.base_dn.as_str();
    match command {
        Command::Search { filter, attributes, scope, output } => {
            let csv = match attributes {
                Some(csv) => Some(csv.as_str()),
                None => None,
            };
            match SearchRequest::search(base_dn, filter.as_str(), csv, scope.as_str()) {
                Ok(request) => Ok(job_of(request, scope.as_str(), output.as_str())),
                Err(e) => Err(e),
            }
        },
        Command::Users { output } => Ok(job_of(SearchRequest::users(base_dn), "sub", output.as_str())),
        Command::Groups { output } => Ok(
            job_of(SearchRequest::groups(base_dn), "sub", output.as_str()),
        ),
        Command::Test => {
            let mut preamble: Vec<String> = Vec::new();
            preamble.push(String::from_str("Testing connection to LDAP server..."));
            let mut line = String::from_str("URL: ");
            line.append(params.url.as_str());
            preamble.push(line);
            let mut line = String::from_str("Bind DN: ");
            line.append(params.bind_dn.as_str());
            preamble.push(line);
            assert(texts(preamble@) =~= probe_preamble(params@));
            let announcement: Vec<String> = Vec::new();
            assert(texts(announcement@) =~= Seq::<Seq<char>>::empty());
            Ok(
                Job {
                    request: SearchRequest::probe(base_dn),
                    presentation: Presentation::Count,
                    preamble,
                    announcement,
                },
            )
        },
    }
}

} // verus!
