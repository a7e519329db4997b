//! The OpenAPI description of the service's own routes: which methods each
//! path has, and with which statuses each may answer.

use vstd::prelude::*;
use vstd::string::StringSliceAdditionalSpecFns;

verus! {

/// One documented response: its status, its description, and the name of
/// the schema of its body, if the body has one.
pub struct ResponseDoc {
    pub status: u16,
    pub description: &'static str,
    pub body: Option<&'static str>,
}

/// One documented operation: the name of the schema of its request body,
/// if it takes one, and its responses.
pub struct Operation {
    pub request_body: Option<&'static str>,
    pub responses: Vec<ResponseDoc>,
}

/// A documented path with its `GET` and `POST` operations.
pub struct PathItem {
    pub path: &'static str,
    pub get: Option<Operation>,
    pub post: Option<Operation>,
}

/// The document: the paths, and the names of the schemas it refers to.
pub struct OpenApiDoc {
    pub paths: Vec<PathItem>,
    pub schemas: Vec<&'static str>,
}

/// The marker type that stands for the service's API description.
pub struct ApiDoc;

/// The statuses of an operation's responses, in the order documented.
pub open spec fn response_statuses(operation: Operation) -> Seq<u16> {
    operation.responses@.map_values(|response: ResponseDoc| response.status)
}

/// A documented response as its status, its description and the name of
/// its body's schema.
pub open spec fn response_entry(response: ResponseDoc) -> (u16, Seq<char>, Option<Seq<char>>) {
    (
        response.status,
        response.description@,
        match response.body {
            Some(name) => Some(name@),
            None => None,
        },
    )
}

/// An operation's responses as entries, in the order documented.
pub open spec fn response_entries(operation: Operation) -> Seq<(u16, Seq<char>, Option<Seq<char>>)> {
    operation.responses@.map_values(|response: ResponseDoc| response_entry(response))
}

/// The responses of `GET /`: `200` with the service identity.
pub open spec fn documented_get_responses() -> Seq<(u16, Seq<char>, Option<Seq<char>>)> {
    seq![(200u16, ""@, Some("Info"@))]
}

/// The responses of `POST /`: `200` with the result, `422` when the list is
/// empty or a dependency rejected the input, `500` for a malformed result of
/// a dependency, `503` when a dependency is unavailable.
pub open spec fn documented_post_responses() -> Seq<(u16, Seq<char>, Option<Seq<char>>)> {
    seq![
        (200u16, ""@, Some("HarmonicMeanResponse"@)),
        (422u16, "the list is empty, or a dependency rejected the input (forwarded)"@, None),
        (500u16, "a dependency returned a malformed result"@, None),
        (503u16, "a dependency is unavailable"@, None),
    ]
}

/// The statuses that `POST /` is documented to answer with.
pub open spec fn documented_post_statuses() -> Seq<u16> {
    seq![200u16, 422u16, 500u16, 503u16]
}

/// The statuses that `GET /` is documented to answer with.
pub open spec fn documented_get_statuses() -> Seq<u16> {
    seq![200u16]
}

fn response(status: u16, description: &'static str, body: Option<&'static str>) -> (doc: ResponseDoc)
    ensures
        doc.status == status,
        doc.description == description,
        doc.body == body,
{
    ResponseDoc { status, description, body }
}

impl ApiDoc {
    /// The description of the routes `GET /` (the service identity, a body
    /// of schema `Info`) and `POST /` (the evaluation, taking `EvalRequest`
    /// and answering `200` with `HarmonicMeanResponse`, or `422`, `500` or
    /// `503`).
    pub fn openapi() -> (doc: OpenApiDoc)
        ensures
            doc.paths@.len() == 1,
            doc.paths@[0].path@ == "/"@,
            doc.paths@[0].get matches Some(get) && response_entries(get) == documented_get_responses()
                && response_statuses(get) == documented_get_statuses() && get.request_body is None,
            doc.paths@[0].post matches Some(post) && response_entries(post)
                == documented_post_responses() && response_statuses(post)
                == documented_post_statuses() && post.request_body == Some("EvalRequest"),
            doc.schemas@ == seq!["Info", "EvalRequest", "HarmonicMeanResponse"],
    {
        let mut get_responses: Vec<ResponseDoc> = Vec::new();
        get_responses.push(response(200, "", Some("Info")));
        let mut post_responses: Vec<ResponseDoc> = Vec::new();
        post_responses.push(response(200, "", Some("HarmonicMeanResponse")));
        post_responses.push(
            response(
                422,
                "the list is empty, or a dependency rejected the input (forwarded)",
                None,
            ),
        );
        post_responses.push(response(500, "a dependency returned a malformed result", None));
        post_responses.push(response(503, "a dependency is unavailable", None));
        let get = Operation { request_body: None, responses: get_responses };
        let post = Operation { request_body: Some("EvalRequest"), responses: post_responses };
        proof {
            assert(response_statuses(get) =~= documented_get_statuses());
            assert(response_statuses(post) =~= documented_post_statuses());
            assert(response_entries(get) =~= documented_get_responses());
            assert(response_entries(post) =~= documented_post_responses());
        }
        let mut paths: Vec<PathItem> = Vec::new();
        paths.push(PathItem { path: "/", get: Some(get), post: Some(post) });
        let mut schemas: Vec<&'static str> = Vec::new();
        schemas.push("Info");
        schemas.push("EvalRequest");
        schemas.push("HarmonicMeanResponse");
        proof {
            assert(schemas@ =~= seq!["Info", "EvalRequest", "HarmonicMeanResponse"]);
        }
        OpenApiDoc { paths, schemas }
    }
}

/// Whether two strings have the same bytes.
fn same_text(a: &str, b: &str) -> (same: bool)
    ensures
        same == (a.spec_bytes() == b.spec_bytes()),
{
    let x = a.as_bytes();
    let y = b.as_bytes();
    if x.len() != y.len() {
        return false;
    }
    let mut i: usize = 0;
    while i < x.len()
        invariant
            x@ == a.spec_bytes(),
            y@ == b.spec_bytes(),
            x@.len() == y@.len(),
            i <= x@.len(),
            forall|j: int| 0 <= j < i ==> x@[j] == y@[j],
        decreases x.len() - i,
    {
        if x[i] != y[i] {
            return false;
        }
        i = i + 1;
    }
    assert(x@ =~= y@);
    true
}

impl OpenApiDoc {
    /// The first documented path whose text is `path`, if there is one.
    pub fn path(&self, path: &str) -> (item: Option<&PathItem>)
        ensures
            match item {
                Some(found) => exists|i: int|
                    0 <= i < self.paths@.len() && self.paths@[i] == *found
                        && found.path.spec_bytes() == path.spec_bytes() && forall|j: int|
                        0 <= j < i ==> (#[trigger] self.paths@[j]).path.spec_bytes()
                            != path.spec_bytes(),
                None => forall|j: int|
                    0 <= j < self.paths@.len() ==> (#[trigger] self.paths@[j]).path.spec_bytes()
                        != path.spec_bytes(),
            },
    {
        let mut i: usize = 0;
        while i < self.paths.len()
            invariant
                i <= self.paths@.len(),
                forall|j: int|
                    0 <= j < i ==> (#[trigger] self.paths@[j]).path.spec_bytes()
                        != path.spec_bytes(),
            decreases self.paths.len() - i,
        {
            if same_text(self.paths[i].path, path) {
                return Some(&self.paths[i]);
            }
            i = i + 1;
        }
        None
    }
}

} // verus!
