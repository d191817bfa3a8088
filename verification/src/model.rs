//! The fixed set of model identifiers the client can address, and the single
//! table from each variant to its wire-format string, with a reverse lookup
//! for round-tripping.

use vstd::prelude::*;

verus! {

/// A chat-completion model that the endpoint understands.
#[allow(non_camel_case_types)]
#[derive(Clone, Copy, PartialEq, Eq, Structural, Debug)]
pub enum Model {
    Gpt3_5Turbo,
    Gpt3_5Turbo0301,
    TextDavinci003,
    TextDavinci002,
    CodeDavinci002,
    Gpt4,
    Gpt4_0314,
    Gpt4_32k,
    Gpt4_32k_0314,
}

/// The wire-format identifier of each model, as the single source of truth
/// that both the borrowed and the owned accessor return.
pub open spec fn model_id(m: Model) -> Seq<char> {
    match m {
        Model::Gpt3_5Turbo => "gpt-3.5-turbo"@,
        Model::Gpt3_5Turbo0301 => "gpt-3.5-turbo-0301"@,
        Model::TextDavinci003 => "text-davinci-003"@,
        Model::TextDavinci002 => "text-davinci-002"@,
        Model::CodeDavinci002 => "code-davinci-002"@,
        Model::Gpt4 => "gpt-4"@,
        Model::Gpt4_0314 => "gpt-4-0314"@,
        Model::Gpt4_32k => "gpt-4-32k"@,
        Model::Gpt4_32k_0314 => "gpt-4-32k-0314"@,
    }
}

impl Model {
    /// The wire-format identifier, borrowed.
    pub fn as_str(&self) -> (r: &'static str)
        ensures
            r@ == model_id(*self),
    {
        match self {
            Model::Gpt3_5Turbo => "gpt-3.5-turbo",
            Model::Gpt3_5Turbo0301 => "gpt-3.5-turbo-0301",
            Model::TextDavinci003 => "text-davinci-003",
            Model::TextDavinci002 => "text-davinci-002",
            Model::CodeDavinci002 => "code-davinci-002",
            Model::Gpt4 => "gpt-4",
            Model::Gpt4_0314 => "gpt-4-0314",
            Model::Gpt4_32k => "gpt-4-32k",
            Model::Gpt4_32k_0314 => "gpt-4-32k-0314",
        }
    }

    /// The wire-format identifier, owned.
    pub fn to_string(&self) -> (r: String)
        ensures
            r@ == model_id(*self),
    {
        self.as_str().to_owned()
    }

    /// Reverse lookup: the model a wire-format identifier names, if any.
    pub fn from_id(s: &String) -> (r: Option<Model>)
        ensures
            (match r {
                Some(m) => s@ == model_id(m),
                None => forall|m: Model| s@ != model_id(m),
            }),
    {
        if *s == Model::Gpt3_5Turbo.to_string() {
            Some(Model::Gpt3_5Turbo)
        } else if *s == Model::Gpt3_5Turbo0301.to_string() {
            Some(Model::Gpt3_5Turbo0301)
        } else if *s == Model::TextDavinci003.to_string() {
            Some(Model::TextDavinci003)
        } else if *s == Model::TextDavinci002.to_string() {
            Some(Model::TextDavinci002)
        } else if *s == Model::CodeDavinci002.to_string() {
            Some(Model::CodeDavinci002)
        } else if *s == Model::Gpt4.to_string() {
            Some(Model::Gpt4)
        } else if *s == Model::Gpt4_0314.to_string() {
            Some(Model::Gpt4_0314)
        } else if *s == Model::Gpt4_32k.to_string() {
            Some(Model::Gpt4_32k)
        } else if *s == Model::Gpt4_32k_0314.to_string() {
            Some(Model::Gpt4_32k_0314)
        } else {
            None
        }
    }
}

/// Distinct models have distinct wire-format identifiers, so the identifier
/// table round-trips: looking an identifier back up recovers the model it
/// came from.
pub proof fn lemma_model_id_injective(m1: Model, m2: Model)
    requires
        model_id(m1) == model_id(m2),
    ensures
        m1 == m2,
{
    reveal_strlit("gpt-3.5-turbo");
    reveal_strlit("gpt-3.5-turbo-0301");
    reveal_strlit("text-davinci-003");
    reveal_strlit("text-davinci-002");
    reveal_strlit("code-davinci-002");
    reveal_strlit("gpt-4");
    reveal_strlit("gpt-4-0314");
    reveal_strlit("gpt-4-32k");
    reveal_strlit("gpt-4-32k-0314");
    assert("gpt-3.5-turbo"@.len() == 13);
    assert("gpt-3.5-turbo-0301"@.len() == 18);
    assert("text-davinci-003"@.len() == 16);
    assert("text-davinci-002"@.len() == 16);
    assert("code-davinci-002"@.len() == 16);
    assert("gpt-4"@.len() == 5);
    assert("gpt-4-0314"@.len() == 10);
    assert("gpt-4-32k"@.len() == 9);
    assert("gpt-4-32k-0314"@.len() == 14);
    assert("text-davinci-003"@[15] == '3' && "text-davinci-002"@[15] == '2');
    assert("text-davinci-003"@[0] == 't' && "code-davinci-002"@[0] == 'c');
}

} // verus!
