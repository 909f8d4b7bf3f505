use oz::intents::{host_intent_plan, situation_intents, host_id_of, HostIntent, situation_step, SituationStep};

fn view(v: &[HostIntent]) -> Vec<(String, String, String)> {
    v.iter().map(|i| (i.one.clone(), i.two.clone(), i.subnet.clone())).collect()
}

fn t(a: &str, b: &str, c: &str) -> (String, String, String) {
    (a.to_string(), b.to_string(), c.to_string())
}

#[test]
fn host_ids() {
    assert_eq!(host_id_of("aa:bb"), "aa:bb/None");
}

#[test]
fn intents_between_three_nodes() {
    let nodes = vec!["a".to_string(), "b".to_string(), "c".to_string()];
    let plan = view(&host_intent_plan(&nodes));
    assert_eq!(
        plan,
        vec![
            t("a/None", "b/None", "192.0.0.0/24"),
            t("a/None", "b/None", "10.60.0.0/24"),
            t("a/None", "b/None", "10.61.0.0/24"),
            t("a/None", "c/None", "192.0.0.0/24"),
            t("a/None", "c/None", "10.60.0.0/24"),
            t("a/None", "c/None", "10.61.0.0/24"),
            t("b/None", "c/None", "192.0.0.0/24"),
            t("b/None", "c/None", "10.60.0.0/24"),
            t("b/None", "c/None", "10.61.0.0/24"),
        ]
    );
    assert!(host_intent_plan(&vec![]).is_empty());
    assert!(host_intent_plan(&vec!["only".to_string()]).is_empty());
}

#[test]
fn every_pair_is_connected_in_every_subnet() {
    let nodes: Vec<String> = (0..7).map(|i| format!("n{}", i)).collect();
    let plan = view(&host_intent_plan(&nodes));
    assert_eq!(plan.len(), 3 * 7 * 6 / 2);
    for i in 0..7 {
        for j in (i + 1)..7 {
            for s in ["192.0.0.0/24", "10.60.0.0/24", "10.61.0.0/24"] {
                assert!(plan.contains(&t(&format!("n{}/None", i), &format!("n{}/None", j), s)));
            }
        }
    }
}

#[test]
fn situation_connects_upf_and_smf_with_each_peer() {
    let peers = vec!["p".to_string(), "q".to_string()];
    let plan = view(&situation_intents("u", "m", &peers));
    assert_eq!(plan.len(), 12);
    assert_eq!(plan[0], t("u/None", "p/None", "192.0.0.0/24"));
    assert_eq!(plan[1], t("m/None", "p/None", "192.0.0.0/24"));
    assert_eq!(plan[2], t("u/None", "p/None", "10.60.0.0/24"));
    assert_eq!(plan[5], t("m/None", "p/None", "10.61.0.0/24"));
    assert_eq!(plan[6], t("u/None", "q/None", "192.0.0.0/24"));
    assert_eq!(plan[11], t("m/None", "q/None", "10.61.0.0/24"));
}

#[test]
fn situation_connects_only_when_both_are_up() {
    match situation_step(Some("aa".to_string()), Some("bb".to_string())) {
        SituationStep::Connect { upf, smf } => {
            assert_eq!(upf, "aa");
            assert_eq!(smf, "bb");
        },
        SituationStep::NotUp => panic!("both are up"),
    }
    assert!(matches!(situation_step(None, Some("bb".to_string())), SituationStep::NotUp));
    assert!(matches!(situation_step(Some("aa".to_string()), None), SituationStep::NotUp));
}

#[test]
fn host_intent_plan_has_three_intents_per_pair() {
    for n in 0..7usize {
        let nodes: Vec<String> = (0..n).map(|i| format!("00:00:00:00:00:0{}", i)).collect();
        assert_eq!(host_intent_plan(&nodes).len(), 3 * n * n.saturating_sub(1) / 2);
    }
}
