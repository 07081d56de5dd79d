use wan_reconnect::status::{advance, begin, Answer, Instruction, Stage};

#[test]
fn lookup_shows_the_address() {
    let (stage, request) = begin("pw".to_string());
    assert_eq!(stage, Stage::LoggingIn);
    assert_eq!(request, Instruction::Login("pw".to_string()));
    let (stage, request) = advance(stage, Answer::LoggedIn(Ok("abc".to_string())));
    assert_eq!(stage, Stage::Querying);
    assert_eq!(request, Instruction::QueryIp("abc".to_string()));
    let (stage, request) = advance(stage, Answer::Queried(Ok("203.0.113.5".to_string())));
    assert_eq!(stage, Stage::Finished);
    assert_eq!(request, Instruction::Show("203.0.113.5".to_string()));
}

#[test]
fn lookup_fails_with_the_login_failure() {
    let (stage, _) = begin("pw".to_string());
    let (stage, request) = advance(stage, Answer::LoggedIn(Err("bad password".to_string())));
    assert_eq!(stage, Stage::Finished);
    assert_eq!(request, Instruction::Fail("bad password".to_string()));
    let (stage, request) = advance(stage, Answer::Queried(Ok("203.0.113.5".to_string())));
    assert_eq!(stage, Stage::Finished);
    assert_eq!(request, Instruction::Idle);
}

#[test]
fn lookup_fails_with_the_query_failure() {
    let (stage, _) = begin("pw".to_string());
    let (stage, _) = advance(stage, Answer::LoggedIn(Ok("abc".to_string())));
    let (stage, request) = advance(stage, Answer::Queried(Err("no route".to_string())));
    assert_eq!(stage, Stage::Finished);
    assert_eq!(request, Instruction::Fail("no route".to_string()));
}

#[test]
fn lookup_ignores_an_answer_out_of_turn() {
    let (stage, _) = begin("pw".to_string());
    let (stage, request) = advance(stage, Answer::Queried(Ok("203.0.113.5".to_string())));
    assert_eq!(stage, Stage::LoggingIn);
    assert_eq!(request, Instruction::Idle);
    let (stage, _) = advance(stage, Answer::LoggedIn(Ok("abc".to_string())));
    let (stage, request) = advance(stage, Answer::LoggedIn(Ok("xyz".to_string())));
    assert_eq!(stage, Stage::Querying);
    assert_eq!(request, Instruction::Idle);
}
