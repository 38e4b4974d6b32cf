//! The function catalog: fixed prompt templates, each a pure function from a
//! raw input to the instruction text that steers the model to print only the
//! conceptual result of that function. Their wording is a prompt-engineering
//! concern, not orchestration logic; each template's text is fixed by a spec
//! function so that prompt construction is provably deterministic.

use vstd::prelude::*;

verus! {

/// The text of the template that normalizes a user request into a goal.
pub open spec fn convert_user_input_to_goal_text() -> Seq<char> {
    "fn convert_user_input_to_goal(user_request: &str) -> String { /* rewrites the user's request as one short, precise goal statement for a website build */ }"@
}

/// Template that turns a raw user request into a normalized project goal.
pub fn convert_user_input_to_goal(_func_input: &str) -> (r: &'static str)
    ensures
        r@ == convert_user_input_to_goal_text(),
{
    "fn convert_user_input_to_goal(user_request: &str) -> String { /* rewrites the user's request as one short, precise goal statement for a website build */ }"
}

/// The text of the template that derives the project scope.
pub open spec fn print_project_scope_text() -> Seq<char> {
    "fn print_project_scope(project_description: &str) -> String { /* prints json: { \"is_crud_required\": bool, \"is_user_login_and_logout\": bool, \"is_external_urls_required\": bool } */ }"@
}

/// Template that derives the project scope from a project description.
/// The expected output is a JSON object with the three scope booleans.
pub fn print_project_scope(_func_input: &str) -> (r: &'static str)
    ensures
        r@ == print_project_scope_text(),
{
    "fn print_project_scope(project_description: &str) -> String { /* prints json: { \"is_crud_required\": bool, \"is_user_login_and_logout\": bool, \"is_external_urls_required\": bool } */ }"
}

/// The text of the template that lists candidate external URLs.
pub open spec fn print_site_urls_text() -> Seq<char> {
    "fn print_site_urls(project_description: &str) -> String { /* prints json: [ \"url1\", \"url2\", ... ] with the public data sources the site needs */ }"@
}

/// Template that lists candidate external URLs for a project description.
/// The expected output is a JSON array of URL strings.
pub fn print_site_urls(_func_input: &str) -> (r: &'static str)
    ensures
        r@ == print_site_urls_text(),
{
    "fn print_site_urls(project_description: &str) -> String { /* prints json: [ \"url1\", \"url2\", ... ] with the public data sources the site needs */ }"
}

/// The text of the template that writes the first backend code version.
pub open spec fn print_backend_webserver_code_text() -> Seq<char> {
    "fn print_backend_webserver_code(code_template_and_description: &str) -> String { /* prints only raw backend code for the described webserver, with no code fences and no commentary */ }"@
}

/// Template that writes the first version of the backend code from a code
/// template and a project description.
pub fn print_backend_webserver_code(_func_input: &str) -> (r: &'static str)
    ensures
        r@ == print_backend_webserver_code_text(),
{
    "fn print_backend_webserver_code(code_template_and_description: &str) -> String { /* prints only raw backend code for the described webserver, with no code fences and no commentary */ }"
}

/// The text of the template that improves generated backend code.
pub open spec fn print_improved_webserver_code_text() -> Seq<char> {
    "fn print_improved_webserver_code(code_and_factsheet: &str) -> String { /* prints only the improved raw backend code, with no code fences and no commentary */ }"@
}

/// Template that improves previously generated backend code.
pub fn print_improved_webserver_code(_func_input: &str) -> (r: &'static str)
    ensures
        r@ == print_improved_webserver_code_text(),
{
    "fn print_improved_webserver_code(code_and_factsheet: &str) -> String { /* prints only the improved raw backend code, with no code fences and no commentary */ }"
}

/// The text of the template that repairs backend code from build errors.
pub open spec fn print_fixed_code_text() -> Seq<char> {
    "fn print_fixed_code(broken_code_and_errors: &str) -> String { /* prints only the corrected raw backend code, with no code fences and no commentary */ }"@
}

/// Template that repairs backend code from accumulated build errors.
pub fn print_fixed_code(_func_input: &str) -> (r: &'static str)
    ensures
        r@ == print_fixed_code_text(),
{
    "fn print_fixed_code(broken_code_and_errors: &str) -> String { /* prints only the corrected raw backend code, with no code fences and no commentary */ }"
}

/// The text of the template that extracts the REST endpoint schema.
pub open spec fn print_rest_api_endpoints_text() -> Seq<char> {
    "fn print_rest_api_endpoints(code_input: &str) -> String { /* prints json: [ { \"route\": string, \"is_route_dynamic\": string, \"method\": string, \"request_body\": json, \"response\": json } ] */ }"@
}

/// Template that extracts the REST endpoint schema from backend code.
/// The expected output is a JSON array of route objects.
pub fn print_rest_api_endpoints(_func_input: &str) -> (r: &'static str)
    ensures
        r@ == print_rest_api_endpoints_text(),
{
    "fn print_rest_api_endpoints(code_input: &str) -> String { /* prints json: [ { \"route\": string, \"is_route_dynamic\": string, \"method\": string, \"request_body\": json, \"response\": json } ] */ }"
}

} // verus!
