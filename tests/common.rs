use versa::common::{Agent, Description, DynChain, DynThread, Env, Middleware, Tool};

struct TestMiddleware1 {}
struct TestMiddleware2 {}

impl Middleware for TestMiddleware1 {
    type Meta = ();
    type Value = String;

    fn map(&self, input: &Self::Value, _meta: &Self::Meta) -> Self::Value {
        format!("{input} - 1")
    }
}

impl Middleware for TestMiddleware2 {
    type Meta = ();
    type Value = String;

    fn map(&self, input: &Self::Value, _meta: &Self::Meta) -> Self::Value {
        format!("{input} - 2")
    }
}

#[test]
fn test_dyn_middleware() {
    let middlewares: Vec<Box<dyn Middleware<Value = String, Meta = ()>>> = vec![
        Box::new(TestMiddleware1 {}),
        Box::new(TestMiddleware2 {}),
    ];

    let input = String::from("Hello");
    let results = middlewares
        .iter()
        .map(|m| m.map(&input, &()))
        .collect::<Vec<_>>();

    assert_eq!(results, vec!["Hello - 1", "Hello - 2"]);
}

struct Chained;
impl DynChain for Chained {}

struct Threaded;
impl DynThread for Threaded {}

#[test]
fn test_dyn_chain() {
    let chains: Vec<Box<dyn DynChain>> = vec![Box::new(Chained), Box::new(Chained)];
    assert_eq!(chains.len(), 2);
}

#[test]
fn test_dyn_thread() {
    let threads: Vec<Box<dyn DynThread>> = vec![Box::new(Threaded)];
    assert_eq!(threads.len(), 1);
}

#[derive(Debug)]
struct Helper;
impl Agent for Helper {}
impl Tool for Helper {}
impl Description for Helper {
    fn get_description(&self) -> String {
        "helps".to_string()
    }
}

#[test]
fn description_id_defaults_to_empty() {
    let h = Helper;
    assert_eq!(h.get_id(), "");
    assert_eq!(h.get_description(), "helps");
    let _agents: Vec<Box<dyn Agent>> = vec![Box::new(Helper)];
    let _tools: Vec<Box<dyn Tool>> = vec![Box::new(Helper)];
}

#[test]
fn env_files_are_named_per_environment() {
    assert_eq!(Env::Dev.file_name(), ".env.dev");
    assert_eq!(Env::Staging.file_name(), ".env.staging");
    assert_eq!(Env::Test.file_name(), ".env.test");
    assert_eq!(Env::Prod.file_name(), ".env");
}
