use gs_slack_bot::excutor::{RawCommand, SshExcutor};

#[test]
fn reboot_command_round_trip() {
    // For any valid host, the rendered line is exactly the playbook call.
    let rendered = RawCommand::build_pc_reboot("c2r5s10").into_string();
    assert_eq!(rendered, "ansible-playbook -l c2r5s10 reboot.yml");

    let rendered = RawCommand::build_pc_reboot("c1").into_string();
    assert_eq!(rendered, "ansible-playbook -l c1 reboot.yml");
}

#[test]
fn legacy_reboot_builder_round_trip() {
    let rendered = gs_slack_bot::cmd::RawCommand::build_reboot("c2r5s10").into_string();
    assert_eq!(rendered, "ansible-playbook -l c2r5s10 reboot.yml");
}

#[test]
fn home_create_command_line() {
    let rendered =
        RawCommand::build_home_create("jdoe", "https://storage.example", "hmtoken")
            .into_string();
    assert_eq!(
        rendered,
        "homemakerctl --url https://storage.example -t hmtoken homes -i jdoe create"
    );
}

#[test]
fn home_delete_command_line() {
    let rendered =
        RawCommand::build_home_delete("jdoe", "https://storage.example", "hmtoken")
            .into_string();
    assert_eq!(
        rendered,
        "homemakerctl --url https://storage.example -t hmtoken homes -i jdoe delete"
    );
}

#[test]
fn home_close_command_line() {
    let rendered = RawCommand::build_home_close(
        "jdoe",
        "iqn.fr.42:c2r5s10",
        "https://storage.example",
        "hmtoken",
    )
    .into_string();
    assert_eq!(
        rendered,
        "homemakerctl --url https://storage.example -t hmtoken homes -i jdoe -q iqn.fr.42:c2r5s10 -f close"
    );
}

#[test]
fn command_with_no_args_renders_with_trailing_space() {
    let cmd = RawCommand {
        cmd: String::from("uptime"),
        args: Vec::new(),
    };
    assert_eq!(cmd.into_string(), "uptime ");
}

#[test]
fn ansible_ssh_args_with_port() {
    let location_hostname = "c1r2s3";
    let ansible = SshExcutor::new_ansible_cluster()
        .with_port(4222)
        .with_remote_cmd(RawCommand::build_pc_reboot(location_hostname));
    let args = ansible.into_args();
    assert_eq!(
        args,
        vec![
            String::from("-p"),
            String::from("4222"),
            String::from("ansible@ansiblecluster"),
            String::from("sudo su -l root -c 'ansible-playbook -l c1r2s3 reboot.yml'"),
        ]
    );
}

#[test]
fn legacy_ssh_args_use_single_quotes() {
    let executor = gs_slack_bot::cmd::SshExcutor::new_ansible()
        .with_remote_cmd(gs_slack_bot::cmd::RawCommand::build_reboot("c1r2s3"));
    let args = executor.into_args();
    assert_eq!(
        args,
        vec![
            String::from("ansible@ansiblecluster"),
            String::from("sudo su -l root -c 'ansible-playbook -l c1r2s3 reboot.yml'"),
        ]
    );
}

#[test]
fn storage_ssh_args_without_port() {
    let executor = SshExcutor::new_student_storage();
    let args = executor.into_args();
    assert_eq!(args, vec![String::from("root@student-storage")]);
}

#[test]
fn identity_key_pair_appears_twice() {
    let executor = SshExcutor::new("admin@gateway")
        .with_ssh_pub_key(String::from("/etc/keys/ops"))
        .with_port(2022);
    let args = executor.into_args();
    assert_eq!(
        args,
        vec![
            String::from("-i"),
            String::from("/etc/keys/ops"),
            String::from("-p"),
            String::from("2022"),
            String::from("-i"),
            String::from("/etc/keys/ops"),
            String::from("admin@gateway"),
        ]
    );
}

#[test]
fn port_rendering_covers_the_edges() {
    let low = SshExcutor::new("a@b").with_port(0).into_args();
    assert_eq!(low[1], "0");
    let high = SshExcutor::new("a@b").with_port(65535).into_args();
    assert_eq!(high[1], "65535");
    let plain = SshExcutor::new("a@b").with_port(22).into_args();
    assert_eq!(plain[1], "22");
}
