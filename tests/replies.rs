use gimper_bot::replies::{age, completion_query, gpt, ping, Member, Role, UpstreamError};

#[test]
fn ping_says_pong() {
    assert_eq!(ping(), "Pong!");
}

fn member(id: u64, name: &str) -> Member {
    Member { id, name: String::from(name) }
}

#[test]
fn age_of_author() {
    let me = member(175928847299117063, "alice");
    assert_eq!(age(&me, None), "alice's account was created at 2016-04-30T11:18:25.796Z");
}

#[test]
fn age_of_target() {
    let me = member(175928847299117063, "alice");
    let other = member(1 << 22, "bob");
    assert_eq!(age(&me, Some(&other)), "bob's account was created at 2015-01-01T00:00:00.001Z");
}

#[test]
fn query_carries_prompt() {
    let q = completion_query("tell me a joke");
    assert_eq!(q.model, "gpt-3.5-turbo");
    assert_eq!(q.messages.len(), 1);
    assert_eq!(q.messages[0].role, Role::User);
    assert_eq!(q.messages[0].content, "tell me a joke");
}

#[test]
fn gpt_first_choice() {
    let r = gpt(Ok(vec![Some(String::from("first")), Some(String::from("second"))]));
    assert_eq!(r.ok().unwrap(), "first");
}

#[test]
fn gpt_absent_content() {
    assert_eq!(gpt(Ok(vec![None, Some(String::from("x"))])).ok().unwrap(), "no response");
}

#[test]
fn gpt_empty_content() {
    assert_eq!(gpt(Ok(vec![Some(String::new())])).ok().unwrap(), "no response");
}

#[test]
fn gpt_no_choices() {
    assert_eq!(gpt(Ok(Vec::new())).ok().unwrap(), "no response");
}

#[test]
fn gpt_upstream_failure() {
    let r = gpt(Err(UpstreamError { message: String::from("quota exceeded") }));
    match r {
        Err(e) => assert_eq!(e.message, "quota exceeded"),
        Ok(_) => panic!("a failed request must not produce a reply"),
    }
}
