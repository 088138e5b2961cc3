//! The decoded GraphQL request and its defaulting rules.

use vstd::prelude::*;

verus! {

/// A decoded GraphQL HTTP request. The `variables` and `operation_name`
/// fields are stored as concrete strings, never as absent values, because
/// the engine's call signature takes concrete strings for both.
pub struct GraphQLRequest {
    pub query: String,
    pub variables: String,
    pub operation_name: String,
}

/// The mathematical content of a request: the three field texts.
pub struct RequestView {
    pub query: Seq<char>,
    pub variables: Seq<char>,
    pub operation_name: Seq<char>,
}

impl View for GraphQLRequest {
    type V = RequestView;

    open spec fn view(&self) -> RequestView {
        RequestView {
            query: self.query@,
            variables: self.variables@,
            operation_name: self.operation_name@,
        }
    }
}

/// The text of an optional decoded field.
pub open spec fn opt_text_view(o: Option<String>) -> Option<Seq<char>> {
    match o {
        Option::Some(s) => Option::Some(s@),
        Option::None => Option::None,
    }
}

/// The request that decoded HTTP fields denote: an omitted optional field
/// defaults to the empty string.
pub open spec fn request_of_parts(
    query: Seq<char>,
    variables: Option<Seq<char>>,
    operation_name: Option<Seq<char>>,
) -> RequestView {
    RequestView {
        query: query,
        variables: match variables {
            Option::Some(v) => v,
            Option::None => Seq::<char>::empty(),
        },
        operation_name: match operation_name {
            Option::Some(o) => o,
            Option::None => Seq::<char>::empty(),
        },
    }
}

impl GraphQLRequest {
    /// Builds a request from decoded HTTP fields (URL query parameters or a
    /// JSON body). Omitted optional fields become empty strings.
    pub fn from_parts(
        query: String,
        variables: Option<String>,
        operation_name: Option<String>,
    ) -> (r: GraphQLRequest)
        ensures
            r@ == request_of_parts(query@, opt_text_view(variables), opt_text_view(operation_name)),
    {
        let variables: String = match variables {
            Option::Some(v) => v,
            Option::None => String::new(),
        };
        let operation_name: String = match operation_name {
            Option::Some(o) => o,
            Option::None => String::new(),
        };
        GraphQLRequest { query, variables, operation_name }
    }
}

/// When the optional fields are omitted, the engine-facing request carries
/// empty strings for them, never an absent value.
pub proof fn lemma_omitted_fields_default(query: Seq<char>)
    ensures
        request_of_parts(query, Option::None, Option::None).variables == Seq::<char>::empty(),
        request_of_parts(query, Option::None, Option::None).operation_name == Seq::<char>::empty(),
{
}

/// An input that omits the optional fields denotes the same request as one
/// that spells them out as empty strings: the two HTTP encodings of the same
/// logical input converge on one request value.
pub proof fn lemma_omitted_equals_empty(query: Seq<char>)
    ensures
        request_of_parts(query, Option::None, Option::None)
            == request_of_parts(
            query,
            Option::Some(Seq::<char>::empty()),
            Option::Some(Seq::<char>::empty()),
        ),
{
}

} // verus!
