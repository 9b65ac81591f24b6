use gs_slack_bot::bot_cmd::{GsctlCommand, GsctlError, SlackMessageContext, SubCommand};
use gs_slack_bot::engine::{
    direct_verdict, finish_task, start_task,
    help_text, home_close_verdict, home_reset_verdict, plan_for, plan_sets_pending,
    port_or_default, reboot_verdict, report_actions, update_verdict, ChatAction, ExecConfig,
    TaskPlan, TaskState, Verdict, DEFAULT_PORT,
};
use gs_slack_bot::wakeup_word_for_user_str;

fn config() -> ExecConfig {
    ExecConfig {
        ansible_port: 4222,
        storage_port: 4222,
        storage_url: String::from("https://storage.example"),
        secret_token: String::from("hmtoken"),
    }
}

fn context() -> SlackMessageContext {
    SlackMessageContext {
        channel: String::from("C0123456789"),
        ts: String::from("1700000000.000100"),
        thread_ts: None,
        real_name: String::from("jdoe"),
        is_admin: false,
        text: String::from("unused here"),
    }
}

#[test]
fn port_defaults_and_parses() {
    assert_eq!(port_or_default(None), DEFAULT_PORT);
    assert_eq!(port_or_default(Some("4222")), 4222);
    assert_eq!(port_or_default(Some("65535")), 65535);
    assert_eq!(port_or_default(Some("0")), 0);
    assert_eq!(port_or_default(Some("")), DEFAULT_PORT);
    assert_eq!(port_or_default(Some("not-a-port")), DEFAULT_PORT);
    assert_eq!(port_or_default(Some("65536")), DEFAULT_PORT);
    assert_eq!(port_or_default(Some("12 34")), DEFAULT_PORT);
    // `str::parse::<u16>` accepts one leading plus sign.
    assert_eq!(port_or_default(Some("+4222")), 4222);
    assert_eq!(port_or_default(Some("+")), DEFAULT_PORT);
    assert_eq!(port_or_default(Some("++22")), DEFAULT_PORT);
    assert_eq!(port_or_default(Some("-22")), DEFAULT_PORT);
}

#[test]
fn verdict_messages_are_exact() {
    assert_eq!(reboot_verdict(true), Verdict::Succeeded(None));
    assert_eq!(
        reboot_verdict(false),
        Verdict::Failed(Some(String::from("Reboot failed.")))
    );
    assert_eq!(home_reset_verdict(true), Verdict::Succeeded(None));
    assert_eq!(
        home_reset_verdict(false),
        Verdict::Failed(Some(String::from("Home reset failed. please contact staff")))
    );
    assert_eq!(home_close_verdict(true), Verdict::Succeeded(None));
    assert_eq!(
        home_close_verdict(false),
        Verdict::Failed(Some(String::from("Home close failed.")))
    );
    assert_eq!(update_verdict(true), Verdict::Succeeded(None));
    assert_eq!(
        update_verdict(false),
        Verdict::Failed(Some(String::from("get member list failed.")))
    );
}

#[test]
fn home_reset_verdict_gated_by_delete_only() {
    // The create call's own status is logged but deliberately not gating.
    assert_eq!(home_reset_verdict(true), Verdict::Succeeded(None));
}

#[test]
fn plan_for_parse_outcomes_without_action() {
    let cfg = config();
    assert!(matches!(
        plan_for(Err(GsctlError::NotACommand), &cfg),
        TaskPlan::Ignore
    ));
    assert!(matches!(
        plan_for(Err(GsctlError::Help), &cfg),
        TaskPlan::RespondHelp
    ));
    match plan_for(Err(GsctlError::Error(String::from("boom"))), &cfg) {
        TaskPlan::RespondError(msg) => assert_eq!(
            msg,
            "Command cannot be executed for the following reasons: boom"
        ),
        other => panic!("unexpected plan: {:?}", other),
    }
}

#[test]
fn plan_for_reboot_builds_the_full_invocation() {
    let cfg = config();
    match plan_for(Ok(GsctlCommand::Reboot(String::from("c1r2s3"))), &cfg) {
        TaskPlan::RunReboot(executor) => {
            assert_eq!(
                executor.into_args(),
                vec![
                    String::from("-p"),
                    String::from("4222"),
                    String::from("ansible@ansiblecluster"),
                    String::from("sudo su -l root -c 'ansible-playbook -l c1r2s3 reboot.yml'"),
                ]
            );
        }
        other => panic!("unexpected plan: {:?}", other),
    }
}

#[test]
fn plan_for_home_reset_runs_delete_then_create() {
    let cfg = config();
    let plan = plan_for(
        Ok(GsctlCommand::Home(Some(SubCommand::Reset(String::from("jdoe"))))),
        &cfg,
    );
    match plan {
        TaskPlan::RunHomeReset { delete, create } => {
            assert_eq!(
                delete.into_args(),
                vec![
                    String::from("-p"),
                    String::from("4222"),
                    String::from("root@student-storage"),
                    String::from(
                        "sudo su -l root -c 'homemakerctl --url https://storage.example -t hmtoken homes -i jdoe delete'"
                    ),
                ]
            );
            assert_eq!(
                create.into_args(),
                vec![
                    String::from("-p"),
                    String::from("4222"),
                    String::from("root@student-storage"),
                    String::from(
                        "sudo su -l root -c 'homemakerctl --url https://storage.example -t hmtoken homes -i jdoe create'"
                    ),
                ]
            );
        }
        other => panic!("unexpected plan: {:?}", other),
    }
}

#[test]
fn plan_for_home_close_uses_the_storage_port() {
    let cfg = config();
    let plan = plan_for(
        Ok(GsctlCommand::Home(Some(SubCommand::Close(
            String::from("jdoe"),
            String::from("iqn.fr.42:c2r5s10"),
        )))),
        &cfg,
    );
    match plan {
        TaskPlan::RunHomeClose(executor) => {
            assert_eq!(
                executor.into_args(),
                vec![
                    String::from("-p"),
                    String::from("4222"),
                    String::from("root@student-storage"),
                    String::from(
                        "sudo su -l root -c 'homemakerctl --url https://storage.example -t hmtoken homes -i jdoe -q iqn.fr.42:c2r5s10 -f close'"
                    ),
                ]
            );
        }
        other => panic!("unexpected plan: {:?}", other),
    }
}

#[test]
fn plan_for_help_like_commands_responds_with_usage() {
    let cfg = config();
    assert!(matches!(
        plan_for(Ok(GsctlCommand::Home(Some(SubCommand::Help))), &cfg),
        TaskPlan::RespondHelp
    ));
    assert!(matches!(
        plan_for(Ok(GsctlCommand::Home(None)), &cfg),
        TaskPlan::RespondHelp
    ));
    assert!(matches!(
        plan_for(Ok(GsctlCommand::Goinfre(Some(SubCommand::Help))), &cfg),
        TaskPlan::RespondHelp
    ));
    assert!(matches!(
        plan_for(Ok(GsctlCommand::Goinfre(None)), &cfg),
        TaskPlan::RespondHelp
    ));
}

#[test]
fn plan_for_goinfre_reset_is_an_explicit_deferral() {
    let cfg = config();
    match plan_for(
        Ok(GsctlCommand::Goinfre(Some(SubCommand::Reset(String::from("jdoe"))))),
        &cfg,
    ) {
        TaskPlan::NotImplemented(msg) => {
            assert_eq!(msg, "goinfre reset is not yet supported.")
        }
        other => panic!("unexpected plan: {:?}", other),
    }
}

#[test]
fn plan_for_update_runs_the_roster_refresh() {
    let cfg = config();
    assert!(matches!(
        plan_for(Ok(GsctlCommand::Update), &cfg),
        TaskPlan::RunUpdate
    ));
}

#[test]
fn only_outward_plans_enter_the_pending_state() {
    let cfg = config();
    assert!(!plan_sets_pending(&plan_for(Err(GsctlError::NotACommand), &cfg)));
    assert!(!plan_sets_pending(&plan_for(Err(GsctlError::Help), &cfg)));
    assert!(!plan_sets_pending(&plan_for(
        Err(GsctlError::Error(String::from("boom"))),
        &cfg
    )));
    assert!(plan_sets_pending(&plan_for(
        Ok(GsctlCommand::Reboot(String::from("c1"))),
        &cfg
    )));
    assert!(plan_sets_pending(&plan_for(Ok(GsctlCommand::Update), &cfg)));
    assert!(!plan_sets_pending(&plan_for(
        Ok(GsctlCommand::Goinfre(Some(SubCommand::Reset(String::from("jdoe"))))),
        &cfg
    )));
}

#[test]
fn ignored_verdict_produces_no_chat_actions() {
    let ctx = context();
    let actions = report_actions(Verdict::Ignored, false, &ctx);
    assert!(actions.is_empty());
}

#[test]
fn success_report_swaps_pending_for_success() {
    let ctx = context();
    let actions = report_actions(Verdict::Succeeded(None), true, &ctx);
    assert_eq!(
        actions,
        vec![
            ChatAction::RemoveReaction {
                channel: String::from("C0123456789"),
                ts: String::from("1700000000.000100"),
                name: String::from("gsroot-loading"),
            },
            ChatAction::AddReaction {
                channel: String::from("C0123456789"),
                ts: String::from("1700000000.000100"),
                name: String::from("white_check_mark"),
            },
        ]
    );
}

#[test]
fn failure_report_swaps_pending_for_failure_and_replies() {
    let ctx = context();
    let actions = report_actions(
        Verdict::Failed(Some(String::from("Reboot failed."))),
        true,
        &ctx,
    );
    assert_eq!(
        actions,
        vec![
            ChatAction::RemoveReaction {
                channel: String::from("C0123456789"),
                ts: String::from("1700000000.000100"),
                name: String::from("gsroot-loading"),
            },
            ChatAction::AddReaction {
                channel: String::from("C0123456789"),
                ts: String::from("1700000000.000100"),
                name: String::from("x"),
            },
            ChatAction::PostInThread {
                channel: String::from("C0123456789"),
                ts: String::from("1700000000.000100"),
                text: String::from("Reboot failed."),
            },
        ]
    );
}

#[test]
fn failure_report_without_pending_only_replies() {
    let ctx = context();
    let actions = report_actions(
        Verdict::Failed(Some(String::from(
            "Command cannot be executed for the following reasons: boom",
        ))),
        false,
        &ctx,
    );
    assert_eq!(
        actions,
        vec![ChatAction::PostInThread {
            channel: String::from("C0123456789"),
            ts: String::from("1700000000.000100"),
            text: String::from("Command cannot be executed for the following reasons: boom"),
        }]
    );
}

#[test]
fn help_report_posts_usage_and_touches_no_reactions() {
    let ctx = context();
    let actions = report_actions(Verdict::HelpWanted, false, &ctx);
    assert_eq!(actions.len(), 1);
    match &actions[0] {
        ChatAction::PostInThread { channel, ts, text } => {
            assert_eq!(channel, "C0123456789");
            assert_eq!(ts, "1700000000.000100");
            assert_eq!(text, &help_text());
        }
        other => panic!("unexpected action: {:?}", other),
    }
}

#[test]
fn each_task_reports_only_to_its_own_message() {
    let ctx_a = SlackMessageContext {
        ts: String::from("1700000000.000100"),
        ..context()
    };
    let ctx_b = SlackMessageContext {
        ts: String::from("1700000000.000200"),
        ..context()
    };
    let a = report_actions(Verdict::Succeeded(None), true, &ctx_a);
    let b = report_actions(Verdict::Failed(Some(String::from("Reboot failed."))), true, &ctx_b);
    for action in &a {
        let ts = match action {
            ChatAction::AddReaction { ts, .. } => ts,
            ChatAction::RemoveReaction { ts, .. } => ts,
            ChatAction::PostInThread { ts, .. } => ts,
        };
        assert_eq!(ts, "1700000000.000100");
    }
    for action in &b {
        let ts = match action {
            ChatAction::AddReaction { ts, .. } => ts,
            ChatAction::RemoveReaction { ts, .. } => ts,
            ChatAction::PostInThread { ts, .. } => ts,
        };
        assert_eq!(ts, "1700000000.000200");
    }
}

#[test]
fn help_text_splices_the_bot_name_three_times() {
    let w = wakeup_word_for_user_str();
    let expected = format!(
        "{p1}{w}{p2}{w}{p3}{w}{p4}",
        p1 = "```\u{c0ac}\u{c6a9}\u{bc95}: ",
        p2 = " [\u{d575}\u{c2ec} \u{ba85}\u{b839}\u{c5b4}] [\u{d558}\u{c704} \u{ba85}\u{b839}\u{c5b4}]\n\n\u{d575}\u{c2ec} \u{ba85}\u{b839}\u{c5b4}:\n  reboot       \u{c2dc}\u{c2a4}\u{d15c}\u{c744} \u{c7ac}\u{bd80}\u{d305}\u{d569}\u{b2c8}\u{b2e4}.\n\n  home         'home' \u{b514}\u{b809}\u{d1a0}\u{b9ac}\u{c640} \u{ad00}\u{b828}\u{b41c} \u{c791}\u{c5c5}\u{c744} \u{ad00}\u{b9ac}\u{d569}\u{b2c8}\u{b2e4}.\n    \u{d558}\u{c704} \u{ba85}\u{b839}\u{c5b4}:\n      reset    home\u{c744} \u{ae30}\u{bcf8} \u{c0c1}\u{d0dc}\u{b85c} \u{c7ac}\u{c124}\u{c815}\u{d569}\u{b2c8}\u{b2e4}.\n      close    remote home\u{acfc} pc\u{c758} \u{c5f0}\u{acb0}\u{c744} \u{b04a}\u{c2b5}\u{b2c8}\u{b2e4}.\n\n\u{c77c}\u{bc18} \u{c635}\u{c158}:\n  -h, --help   \u{c774} \u{b3c4}\u{c6c0}\u{b9d0} \u{ba54}\u{c2dc}\u{c9c0}\u{b97c} \u{bcf4}\u{c5ec}\u{c8fc}\u{ace0} \u{c885}\u{b8cc}\u{d569}\u{b2c8}\u{b2e4}.\n\n\u{c608}\u{c81c}:\n   ",
        p3 = " reboot\n   ",
        p4 = " home reset\n\n\u{c778}\u{c2dd}\u{d560} \u{c218} \u{c5c6}\u{b294} \u{ba85}\u{b839}\u{c5b4}\u{b098} \u{d558}\u{c704} \u{ba85}\u{b839}\u{c5b4}\u{ac00} \u{c81c}\u{acf5}\u{b420} \u{acbd}\u{c6b0} \u{c774} \u{b3c4}\u{c6c0}\u{b9d0}\u{c774} \u{d45c}\u{c2dc}\u{b429}\u{b2c8}\u{b2e4}.```",
        w = w
    );
    assert_eq!(help_text(), expected);
}


#[test]
fn direct_verdicts_settle_exactly_the_inward_plans() {
    let cfg = config();
    assert_eq!(
        direct_verdict(plan_for(Err(GsctlError::NotACommand), &cfg)),
        Ok(Verdict::Ignored)
    );
    assert_eq!(
        direct_verdict(plan_for(Err(GsctlError::Help), &cfg)),
        Ok(Verdict::HelpWanted)
    );
    assert_eq!(
        direct_verdict(plan_for(Err(GsctlError::Error(String::from("boom"))), &cfg)),
        Ok(Verdict::Failed(Some(String::from(
            "Command cannot be executed for the following reasons: boom"
        ))))
    );
    assert_eq!(
        direct_verdict(plan_for(
            Ok(GsctlCommand::Goinfre(Some(SubCommand::Reset(String::from("jdoe"))))),
            &cfg
        )),
        Ok(Verdict::Failed(Some(String::from(
            "goinfre reset is not yet supported."
        ))))
    );
    // Outward plans keep their verdict for after the run.
    assert!(direct_verdict(plan_for(Ok(GsctlCommand::Update), &cfg)).is_err());
    assert!(
        direct_verdict(plan_for(Ok(GsctlCommand::Reboot(String::from("c1"))), &cfg)).is_err()
    );
}

#[test]
fn task_states_step_forward_only() {
    let running = start_task(TaskState::Queued);
    assert_eq!(running, TaskState::Running);
    assert_eq!(
        finish_task(TaskState::Running, &Verdict::Succeeded(None)),
        TaskState::Succeeded
    );
    assert_eq!(
        finish_task(TaskState::Running, &Verdict::Failed(None)),
        TaskState::Failed
    );
    assert_eq!(
        finish_task(TaskState::Running, &Verdict::Ignored),
        TaskState::Ignored
    );
    assert_eq!(
        finish_task(TaskState::Running, &Verdict::HelpWanted),
        TaskState::Succeeded
    );
}
