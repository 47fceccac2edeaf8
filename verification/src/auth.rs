//! Who may call: the token that a server asks for, and where it comes from.
use vstd::prelude::*;

use crate::fields::normalize_bearer_token;
use crate::order::same_text;

verus! {

/// Where the token of a server comes from.
pub enum TokenPlan {
    /// There is none.
    NoToken,
    /// It was given.
    Token(String),
    /// It stands in the file that was given.
    GivenFile,
    /// It stands in one of the usual files.
    UsualFile(usize),
}

/// What a [`TokenPlan`] stands for.
pub enum TokenPlanView {
    NoToken,
    Token(Seq<char>),
    GivenFile,
    UsualFile(usize),
}

impl View for TokenPlan {
    type V = TokenPlanView;

    open spec fn view(&self) -> TokenPlanView {
        match self {
            TokenPlan::NoToken => TokenPlanView::NoToken,
            TokenPlan::Token(token) => TokenPlanView::Token(token@),
            TokenPlan::GivenFile => TokenPlanView::GivenFile,
            TokenPlan::UsualFile(i) => TokenPlanView::UsualFile(*i),
        }
    }
}

/// The token in a text, where there is one.
pub open spec fn given_token(token: Option<Seq<char>>) -> Option<Seq<char>> {
    match token {
        Some(text) => crate::fields::bearer(text),
        None => None,
    }
}

/// The first file that exists.
pub open spec fn is_first(exist: Seq<bool>, i: int) -> bool {
    0 <= i < exist.len() && exist[i] && forall|j: int| 0 <= j < i ==> !exist[j]
}

/// Where the token of a server comes from.
pub open spec fn is_plan(
    plan: TokenPlanView,
    no_auth: bool,
    token: Option<Seq<char>>,
    file_given: bool,
    exist: Seq<bool>,
) -> bool {
    if no_auth {
        plan is NoToken
    } else if given_token(token) is Some {
        plan == TokenPlanView::Token(given_token(token)->0)
    } else if file_given {
        plan is GivenFile
    } else {
        match plan {
            TokenPlanView::UsualFile(i) => is_first(exist, i as int),
            TokenPlanView::NoToken => forall|j: int| 0 <= j < exist.len() ==> !exist[j],
            _ => false,
        }
    }
}

/// A request may pass: no token is asked for, or the one that is asked for is given.
pub open spec fn may_pass(expected: Option<Seq<char>>, header: Option<Seq<char>>) -> bool {
    expected is None || given_token(header) == expected
}

/// Where the token of a server comes from; `exist` says which of the usual files there are.
pub fn plan_http_bearer_token(
    no_auth: bool,
    token: Option<&str>,
    file_given: bool,
    exist: &Vec<bool>,
) -> (plan: TokenPlan)
    ensures
        is_plan(plan@, no_auth, token.deep_view(), file_given, exist@),
{
    if no_auth {
        return TokenPlan::NoToken;
    }
    if let Some(text) = token {
        if let Some(token) = normalize_bearer_token(text) {
            return TokenPlan::Token(token);
        }
    }
    if file_given {
        return TokenPlan::GivenFile;
    }
    let mut i: usize = 0;
    while i < exist.len()
        invariant
            i <= exist@.len(),
            !no_auth,
            !file_given,
            given_token(token.deep_view()) is None,
            forall|j: int| 0 <= j < i ==> !exist@[j],
        decreases exist@.len() - i,
    {
        if exist[i] {
            return TokenPlan::UsualFile(i);
        }
        i += 1;
    }
    TokenPlan::NoToken
}

/// A request may pass; `header` is what it says of who sends it.
pub fn may_call(expected: Option<&str>, header: Option<&str>) -> (passes: bool)
    ensures
        passes == may_pass(expected.deep_view(), header.deep_view()),
{
    let token = match expected {
        Some(token) => token,
        None => return true,
    };
    match header {
        Some(text) => match normalize_bearer_token(text) {
            Some(given) => same_text(given.as_str(), token),
            None => false,
        },
        None => false,
    }
}

/// A token may be given with or without the word before it.
pub proof fn law_bearer_word_is_optional(token: Seq<char>)
    requires
        crate::fields::bearer(token) == Some(token),
    ensures
        crate::fields::bearer("Bearer "@ + token) == Some(token),
        may_pass(Some(token), Some(token)),
        may_pass(Some(token), Some("Bearer "@ + token)),
{
    reveal_strlit("Bearer ");
    let whole = "Bearer "@ + token;
    crate::text::lemma_trimmed_twice(token);
    assert(token.len() > 0 && crate::text::trimmed(token) == token) by {
        let t = crate::text::trimmed(token);
        let raw = match crate::text::without_prefix(t, "Bearer "@) {
            Some(rest) => rest,
            None => t,
        };
        assert(crate::text::trimmed(raw) == token);
        crate::text::lemma_trimmed_twice(raw);
    }
    crate::text::lemma_trimmed_ends(token);
    assert(whole[0] == 'B');
    assert(whole.last() == token.last());
    assert(crate::text::trimmed(whole) == whole);
    assert(crate::text::without_prefix(whole, "Bearer "@) == Some(token)) by {
        assert(whole.skip(7) =~= token);
    }
}

} // verus!
