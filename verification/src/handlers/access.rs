//! Who may ask: the key of a caller and the password of a visitor.

use crate::config::{
    expected_api_key, is_on, switch_is_on, text_or, value_or, Environment, EnvironmentView,
};
use crate::text::{chars_of, pieces, same_text, split, starts_with, string_of};
use vstd::prelude::*;

verus! {

/// A header of a request, as far as a handler reads it.
#[derive(Clone, Debug, PartialEq, Eq)]
pub enum Header {
    /// The request has no such header.
    Missing,
    /// The header's value is not visible text.
    Unreadable,
    /// The header's value.
    Text(String),
}

/// A header as mathematical data.
pub enum HeaderView {
    Missing,
    Unreadable,
    Text(Seq<char>),
}

impl View for Header {
    type V = HeaderView;

    open spec fn view(&self) -> HeaderView {
        match self {
            Header::Missing => HeaderView::Missing,
            Header::Unreadable => HeaderView::Unreadable,
            Header::Text(text) => HeaderView::Text(text@),
        }
    }
}

/// The password that the first parameter named `password` gives; `None`
/// where no parameter has that name and a value.
pub open spec fn first_password(params: Seq<Seq<char>>) -> Option<Seq<char>>
    decreases params.len(),
{
    if params.len() == 0 {
        None
    } else if "password="@.is_prefix_of(params[0]) {
        Some(params[0].skip("password="@.len() as int))
    } else {
        first_password(params.drop_first())
    }
}

/// The password in a query string, which holds parameters between `&`. The
/// text is taken as it stands: nothing in it is decoded.
pub open spec fn query_password(query: Seq<char>) -> Option<Seq<char>> {
    first_password(pieces(query, '&'))
}

/// The password that a request offers: the text of its `x-gui-password`
/// header, or else the one in its query string.
pub open spec fn offered_password(header: HeaderView, query: Option<Seq<char>>) -> Option<Seq<char>> {
    match header {
        HeaderView::Text(text) => Some(text),
        _ => match query {
            Some(query) => query_password(query),
            None => None,
        },
    }
}

/// Whether a request may see the pages of the relay: it may where no
/// password is asked for, and where it offers the password that is set. No
/// password set means that the empty password is asked for.
pub open spec fn gui_allows(env: EnvironmentView, header: HeaderView, query: Option<Seq<char>>) -> bool {
    is_on(env.gui_auth_required) ==> offered_password(header, query) == Some(
        value_or(env.gui_password, Seq::empty()),
    )
}

/// Whether the key that a request sends in `header` is the one expected. A
/// header that is not visible text counts as the empty key.
pub open spec fn key_accepted(env: EnvironmentView, header: HeaderView) -> bool {
    match header {
        HeaderView::Text(key) => key == expected_api_key(env),
        HeaderView::Unreadable => expected_api_key(env) == Seq::<char>::empty(),
        HeaderView::Missing => false,
    }
}

/// Computes `query_password`.
pub fn password_in_query(query: &str) -> (password: Option<String>)
    ensures
        password.deep_view() == query_password(query@),
{
    let params = split(query, '&');
    let mut i: usize = 0;
    proof {
        reveal_strlit("password=");
        assert(params.deep_view().skip(0) =~= params.deep_view());
    }
    while i < params.len()
        invariant
            i <= params.len(),
            "password="@.len() == 9,
            first_password(params.deep_view().skip(i as int)) == query_password(query@),
        decreases params.len() - i,
    {
        let ghost rest = params.deep_view().skip(i as int);
        assert(rest[0] == params[i as int]@);
        assert(rest.drop_first() =~= params.deep_view().skip(i + 1));
        if starts_with(params[i].as_str(), "password=") {
            let chars = chars_of(params[i].as_str());
            assert(chars@.subrange(9, chars.len() as int) =~= chars@.skip(9));
            return Some(string_of(&chars, 9, chars.len()));
        }
        i += 1;
    }
    assert(params.deep_view().skip(i as int) =~= Seq::empty());
    None
}

/// Decides `gui_allows`.
pub fn gui_authorized(env: &Environment, header: &Header, query: Option<&str>) -> (allowed: bool)
    ensures
        allowed == gui_allows(env@, header@, query.deep_view()),
{
    if !switch_is_on(&env.gui_auth_required) {
        return true;
    }
    proof {
        reveal_strlit("");
    }
    assert(""@ =~= Seq::empty());
    let expected = text_or(&env.gui_password, "");
    let offered = match header {
        Header::Text(text) => Some(text.clone()),
        _ => match query {
            Some(query) => password_in_query(query),
            None => None,
        },
    };
    match offered {
        Some(password) => same_text(password.as_str(), expected.as_str()),
        None => false,
    }
}

/// Decides `key_accepted`.
pub fn api_key_accepted(env: &Environment, header: &Header) -> (accepted: bool)
    ensures
        accepted == key_accepted(env@, header@),
{
    let expected = env.expected_api_key();
    match header {
        Header::Text(key) => same_text(key.as_str(), expected.as_str()),
        Header::Unreadable => {
            let empty = expected.as_str().is_empty();
            assert(empty == (expected@ =~= Seq::<char>::empty()));
            empty
        },
        Header::Missing => false,
    }
}

} // verus!
