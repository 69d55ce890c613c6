use triangle_demo::report::{failure_to_string, render_report, reverse_causes, Cause};

#[test]
fn empty_chain_renders_nothing() {
    let causes: Vec<Cause> = Vec::new();
    assert_eq!(render_report(&causes), "");
}

#[test]
fn single_cause_without_backtrace() {
    let causes = vec![Cause { message: String::from("boom"), backtrace: None }];
    assert_eq!(render_report(&causes), "boom\n");
}

#[test]
fn single_cause_with_backtrace() {
    let causes = vec![Cause {
        message: String::from("io error"),
        backtrace: Some(String::from("src/main.rs:10")),
    }];
    assert_eq!(render_report(&causes), "io error This happened at src/main.rs:10\n");
}

#[test]
fn empty_backtrace_reads_like_none() {
    let causes = vec![Cause { message: String::from("fail"), backtrace: Some(String::new()) }];
    assert_eq!(render_report(&causes), "fail\n");
}

#[test]
fn two_causes_root_first() {
    let causes = vec![
        Cause { message: String::from("root"), backtrace: None },
        Cause { message: String::from("outer"), backtrace: None },
    ];
    assert_eq!(
        render_report(&causes),
        "root\n   Which caused the following issue:\nouter\n"
    );
}

#[test]
fn reverse_causes_reverses_order() {
    let causes = vec![
        Cause { message: String::from("a"), backtrace: None },
        Cause { message: String::from("b"), backtrace: None },
        Cause { message: String::from("c"), backtrace: None },
    ];
    let rev = reverse_causes(causes);
    let msgs: Vec<&str> = rev.iter().map(|c| c.message.as_str()).collect();
    assert_eq!(msgs, vec!["c", "b", "a"]);
}

#[derive(Debug)]
struct TestFail {
    message: &'static str,
    cause: Option<Box<TestFail>>,
}

impl std::fmt::Display for TestFail {
    fn fmt(&self, f: &mut std::fmt::Formatter) -> std::fmt::Result {
        f.write_str(self.message)
    }
}

impl failure::Fail for TestFail {
    fn cause(&self) -> Option<&dyn failure::Fail> {
        match &self.cause {
            Some(c) => Some(c.as_ref()),
            None => None,
        }
    }
}

#[test]
fn failure_single_error() {
    let e = failure::err_msg("boom");
    assert_eq!(failure_to_string(e), "boom\n");
}

#[test]
fn failure_chain_lists_root_first() {
    let root = TestFail { message: "root", cause: None };
    let outer = TestFail { message: "outer", cause: Some(Box::new(root)) };
    let e = failure::Error::from(outer);
    assert_eq!(
        failure_to_string(e),
        "root\n   Which caused the following issue:\nouter\n"
    );
}
