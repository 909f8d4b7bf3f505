use oz::rasa::{post_intent, try_post_intent, next_action_step, slice_reply, rasa, try_rasa, rasa_command,
    IntentStep, IntentReply, JsonField, RasaCommand, Policy};

fn rejected_with(step: &IntentStep) -> Option<String> {
    match step {
        IntentStep::Reply(IntentReply::Rejected(m)) => Some(m.clone()),
        _ => None,
    }
}

fn accepted_with(step: &IntentStep) -> Option<(String, String)> {
    match step {
        IntentStep::Reply(IntentReply::Accepted(u)) => Some((u.template.clone(), u.text.clone())),
        _ => None,
    }
}

#[test]
fn slice_action_needs_the_state() {
    let step = post_intent(br#"{"next_action": "action_wodan_slice", "sender_id": "x"}"#);
    assert!(matches!(step, IntentStep::NeedSliceState));
}

#[test]
fn confirm_action_is_accepted() {
    let step = post_intent(br#"{"next_action": "action_wodan_confirm"}"#);
    assert_eq!(accepted_with(&step), Some(("utter_message".to_string(), "Intent accepted".to_string())));
}

#[test]
fn null_action_is_missing_data() {
    let step = post_intent(br#"{"next_action": null}"#);
    assert_eq!(rejected_with(&step), Some("Error: intent data missing".to_string()));
}

#[test]
fn other_actions_are_badly_formed() {
    for body in [&br#"{"next_action": "action_other"}"#[..], br#"{"next_action": 3}"#, br#"{"next_action": ["a"]}"#] {
        let step = post_intent(body);
        assert_eq!(rejected_with(&step), Some("Error: intent format incorrect".to_string()));
    }
}

#[test]
fn failing_bodies() {
    assert!(try_post_intent(b"not json").is_none());
    assert!(try_post_intent(b"[1, 2]").is_none());
    assert!(try_post_intent(br#"{"sender_id": "x"}"#).is_none());
    assert!(matches!(try_post_intent(br#"{"next_action": "action_wodan_slice"}"#), Some(IntentStep::NeedSliceState)));
}

#[test]
fn decisions_on_found_values() {
    assert!(matches!(next_action_step(&JsonField::Text("action_wodan_slice".to_string())), IntentStep::NeedSliceState));
    assert_eq!(rejected_with(&next_action_step(&JsonField::Null)), Some("Error: intent data missing".to_string()));
    assert_eq!(rejected_with(&next_action_step(&JsonField::Number)), Some("Error: intent format incorrect".to_string()));
    assert_eq!(rejected_with(&next_action_step(&JsonField::Bool(true))), Some("Error: intent format incorrect".to_string()));
    assert_eq!(rejected_with(&next_action_step(&JsonField::Object)), Some("Error: intent format incorrect".to_string()));
}

#[test]
fn slice_reply_reports_the_state() {
    let state = vec![("slice".to_string(), "embb".to_string()), ("upf".to_string(), "upf1".to_string())];
    match slice_reply(&state) {
        IntentReply::Accepted(u) => {
            assert_eq!(u.template, "utter_message");
            assert_eq!(u.text, "Intent Accepted!\nDeployment Location: PM1_metroUK11\nState: \n\tslice: embb\n\tupf: upf1\n");
        },
        IntentReply::Rejected(_) => panic!("the slice is accepted"),
    }
    match slice_reply(&vec![]) {
        IntentReply::Accepted(u) => assert_eq!(u.text, "Intent Accepted!\nDeployment Location: PM1_metroUK11\nState: \n"),
        IntentReply::Rejected(_) => panic!("the slice is accepted"),
    }
}

fn tracker(name: &str) -> Vec<u8> {
    format!(r#"{{"tracker": {{"latest_message": {{"intent": {{"name": "{}", "confidence": 0.9}}}}}}}}"#, name).into_bytes()
}

#[test]
fn rasa_intents() {
    assert!(matches!(rasa(&tracker("validate")), RasaCommand::Validate));
    assert!(matches!(rasa(&tracker("change")), RasaCommand::Change));
    assert!(matches!(rasa(&tracker("heal")), RasaCommand::Heal));
    assert!(matches!(rasa(&tracker("greet")), RasaCommand::NoAction));
    assert!(matches!(rasa_command("heal"), RasaCommand::Heal));
    assert!(try_rasa(br#"{"tracker": {}}"#).is_none());
    assert!(try_rasa(br#"{"tracker": {"latest_message": {"intent": {"name": null}}}}"#).is_none());
    assert!(matches!(try_rasa(&tracker("change")), Some(RasaCommand::Change)));
}

#[test]
fn policy_holds_its_fields() {
    let p = Policy { keyword: "latency".to_string(), _match: "low".to_string(), pass: 3 };
    assert_eq!(p.keyword, "latency");
    assert_eq!(p._match, "low");
    assert_eq!(p.pass, 3);
}
