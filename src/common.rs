//! Traits and small types shared by the parts of the library.

use vstd::prelude::*;

verus! {

/// A set of settings that starts from defaults and can be copied.
pub trait Config: Default + Clone {

}

/// Something that can describe itself.
pub trait Description: core::fmt::Debug {
    /// An identifier of the form `<type>/<org>/<category>/<name>`, for example
    /// `model/openai/chat/gpt-3.5-turbo`; empty where none is given.
    fn get_id(&self) -> String {
        String::new()
    }

    /// A description in words.
    fn get_description(&self) -> String;
}

/// The environment that settings are loaded for.
#[derive(Debug, Clone, Copy, PartialEq, Eq, Structural)]
pub enum Env {
    Dev,
    Staging,
    Test,
    Prod,
}

/// The file that holds the variables of `env`.
pub open spec fn env_file_name(env: Env) -> Seq<char> {
    match env {
        Env::Dev => ".env.dev"@,
        Env::Staging => ".env.staging"@,
        Env::Test => ".env.test"@,
        Env::Prod => ".env"@,
    }
}

impl Env {
    /// The file that holds the variables of this environment.
    pub fn file_name(&self) -> (r: &'static str)
        ensures
            r@ == env_file_name(*self),
    {
        match self {
            Env::Dev => ".env.dev",
            Env::Staging => ".env.staging",
            Env::Test => ".env.test",
            Env::Prod => ".env",
        }
    }
}

/// A transformation applied to a value on its way to or from a model.
pub trait Middleware {
    /// The value transformed.
    type Value;

    /// What the transformation may read besides the value.
    type Meta;

    /// The value that `input` becomes.
    fn map(&self, input: &Self::Value, meta: &Self::Meta) -> Self::Value;
}

/// An agent: a process that converses with a model and acts on it.
pub trait Agent {

}

/// A tool that an agent can use to act on the world.
pub trait Tool {

}

/// A chain of model calls that can be held behind a pointer.
pub trait DynChain {

}

/// A conversation thread that can be held behind a pointer.
pub trait DynThread {

}

} // verus!
