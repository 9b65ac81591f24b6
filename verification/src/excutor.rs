//! Remote command construction: the exact program name and argument vector
//! of each privileged action, and the argument vector of the `ssh`
//! invocation that carries it. Building these is pure and fully verified;
//! only the spawn of the `ssh` process itself lives outside the library.

use crate::text::{dec_digits, join_spaces, join_with_spaces, u16_to_string};
use vstd::prelude::*;
use vstd::string::*;

verus! {

/// A remote command: program name plus ordered argument vector. An
/// immutable value; it serializes deterministically by space-joining.
#[derive(Debug, PartialEq, Eq)]
pub struct RawCommand {
    pub cmd: String,
    pub args: Vec<String>,
}

/// Mathematical image of [`RawCommand`].
pub struct RawCommandView {
    pub cmd: Seq<char>,
    pub args: Seq<Seq<char>>,
}

impl RawCommandView {
    /// The single command-line string a command renders to: the program,
    /// one space, then the arguments joined with single spaces.
    pub open spec fn command_line(self) -> Seq<char> {
        self.cmd + seq![' '] + join_spaces(self.args)
    }
}

impl View for RawCommand {
    type V = RawCommandView;

    open spec fn view(&self) -> RawCommandView {
        RawCommandView { cmd: self.cmd@, args: self.args.deep_view() }
    }
}

impl RawCommand {
    /// The workstation reboot: `ansible-playbook -l <host> reboot.yml`.
    pub fn build_pc_reboot(location_hostname: &str) -> (r: RawCommand)
        ensures
            r@.cmd == "ansible-playbook"@,
            r@.args == seq!["-l"@, location_hostname@, "reboot.yml"@],
    {
        let mut args: Vec<String> = Vec::new();
        args.push(String::from_str("-l"));
        args.push(String::from_str(location_hostname));
        args.push(String::from_str("reboot.yml"));
        proof {
            assert(args.deep_view() =~= seq!["-l"@, location_hostname@, "reboot.yml"@]);
        }
        RawCommand { cmd: String::from_str("ansible-playbook"), args }
    }

    /// Creating a user's home on the storage controller:
    /// `homemakerctl --url <url> -t <secret> homes -i <login> create`.
    pub fn build_home_create(login: &str, url: &str, secret: &str) -> (r: RawCommand)
        ensures
            r@.cmd == "homemakerctl"@,
            r@.args == seq![
                "--url"@,
                url@,
                "-t"@,
                secret@,
                "homes"@,
                "-i"@,
                login@,
                "create"@,
            ],
    {
        let mut args: Vec<String> = Vec::new();
        args.push(String::from_str("--url"));
        args.push(String::from_str(url));
        args.push(String::from_str("-t"));
        args.push(String::from_str(secret));
        args.push(String::from_str("homes"));
        args.push(String::from_str("-i"));
        args.push(String::from_str(login));
        args.push(String::from_str("create"));
        proof {
            assert(args.deep_view() =~= seq![
                "--url"@,
                url@,
                "-t"@,
                secret@,
                "homes"@,
                "-i"@,
                login@,
                "create"@,
            ]);
        }
        RawCommand { cmd: String::from_str("homemakerctl"), args }
    }

    /// Deleting a user's home on the storage controller:
    /// `homemakerctl --url <url> -t <secret> homes -i <login> delete`.
    pub fn build_home_delete(login: &str, url: &str, secret: &str) -> (r: RawCommand)
        ensures
            r@.cmd == "homemakerctl"@,
            r@.args == seq![
                "--url"@,
                url@,
                "-t"@,
                secret@,
                "homes"@,
                "-i"@,
                login@,
                "delete"@,
            ],
    {
        let mut args: Vec<String> = Vec::new();
        args.push(String::from_str("--url"));
        args.push(String::from_str(url));
        args.push(String::from_str("-t"));
        args.push(String::from_str(secret));
        args.push(String::from_str("homes"));
        args.push(String::from_str("-i"));
        args.push(String::from_str(login));
        args.push(String::from_str("delete"));
        proof {
            assert(args.deep_view() =~= seq![
                "--url"@,
                url@,
                "-t"@,
                secret@,
                "homes"@,
                "-i"@,
                login@,
                "delete"@,
            ]);
        }
        RawCommand { cmd: String::from_str("homemakerctl"), args }
    }

    /// Unlinking a user's home from its host:
    /// `homemakerctl --url <url> -t <secret> homes -i <login> -q <host> -f close`.
    pub fn build_home_close(login: &str, location_hostname: &str, url: &str, secret: &str) -> (r:
        RawCommand)
        ensures
            r@.cmd == "homemakerctl"@,
            r@.args == seq![
                "--url"@,
                url@,
                "-t"@,
                secret@,
                "homes"@,
                "-i"@,
                login@,
                "-q"@,
                location_hostname@,
                "-f"@,
                "close"@,
            ],
    {
        let mut args: Vec<String> = Vec::new();
        args.push(String::from_str("--url"));
        args.push(String::from_str(url));
        args.push(String::from_str("-t"));
        args.push(String::from_str(secret));
        args.push(String::from_str("homes"));
        args.push(String::from_str("-i"));
        args.push(String::from_str(login));
        args.push(String::from_str("-q"));
        args.push(String::from_str(location_hostname));
        args.push(String::from_str("-f"));
        args.push(String::from_str("close"));
        proof {
            assert(args.deep_view() =~= seq![
                "--url"@,
                url@,
                "-t"@,
                secret@,
                "homes"@,
                "-i"@,
                login@,
                "-q"@,
                location_hostname@,
                "-f"@,
                "close"@,
            ]);
        }
        RawCommand { cmd: String::from_str("homemakerctl"), args }
    }

    /// Renders the command to its one-line form.
    pub fn into_string(self) -> (r: String)
        ensures
            r@ == self@.command_line(),
    {
        let joined = join_with_spaces(&self.args);
        let mut r = self.cmd;
        proof {
            reveal_strlit(" ");
        }
        r.append(" ");
        r.append(joined.as_str());
        proof {
            assert(r@ =~= self@.command_line());
        }
        r
    }
}

/// One secure-shell invocation: target address, optional identity key and
/// port, and the optional remote command to run there as root.
#[derive(Debug, PartialEq, Eq)]
pub struct SshExcutor {
    pub ssh_pub_key: Option<String>,
    pub address: String,
    pub port: Option<u16>,
    pub remote_cmd: Option<RawCommand>,
}

/// Mathematical image of [`SshExcutor`].
pub struct SshExcutorView {
    pub ssh_pub_key: Option<Seq<char>>,
    pub address: Seq<char>,
    pub port: Option<u16>,
    pub remote_cmd: Option<RawCommandView>,
}

impl View for SshExcutor {
    type V = SshExcutorView;

    open spec fn view(&self) -> SshExcutorView {
        SshExcutorView {
            ssh_pub_key: match self.ssh_pub_key {
                Some(ref k) => Some(k@),
                None => None,
            },
            address: self.address@,
            port: self.port,
            remote_cmd: match self.remote_cmd {
                Some(ref c) => Some(c@),
                None => None,
            },
        }
    }
}

/// The `-i <key>` pair, where a key was given.
pub open spec fn key_args(key: Option<Seq<char>>) -> Seq<Seq<char>> {
    match key {
        Some(k) => seq!["-i"@, k],
        None => Seq::empty(),
    }
}

/// The `-p <port>` pair, where a port was given.
pub open spec fn port_args(port: Option<u16>) -> Seq<Seq<char>> {
    match port {
        Some(p) => seq!["-p"@, dec_digits(p as int)],
        None => Seq::empty(),
    }
}

/// The remote command line, wrapped as an elevated invocation in single
/// quotes, where a remote command was given.
pub open spec fn remote_args(remote_cmd: Option<RawCommandView>) -> Seq<Seq<char>> {
    match remote_cmd {
        Some(c) => seq!["sudo su -l root -c '"@ + c.command_line() + "'"@],
        None => Seq::empty(),
    }
}

/// The full argument vector handed to the `ssh` program. The identity
/// key pair appears twice, once before and once after the port pair; the
/// second copy is redundant to `ssh` but harmless.
pub open spec fn ssh_args(e: SshExcutorView) -> Seq<Seq<char>> {
    key_args(e.ssh_pub_key) + port_args(e.port) + key_args(e.ssh_pub_key) + seq![e.address]
        + remote_args(e.remote_cmd)
}

impl SshExcutor {
    /// A bare invocation of `address`: no key, no port, no remote command.
    pub fn new(address: &str) -> (r: SshExcutor)
        ensures
            r@ == (SshExcutorView {
                ssh_pub_key: None,
                address: address@,
                port: None,
                remote_cmd: None,
            }),
    {
        SshExcutor {
            ssh_pub_key: None,
            address: String::from_str(address),
            port: None,
            remote_cmd: None,
        }
    }

    /// The automation-cluster target that runs reboot playbooks.
    pub fn new_ansible_cluster() -> (r: SshExcutor)
        ensures
            r@ == (SshExcutorView {
                ssh_pub_key: None,
                address: "ansible@ansiblecluster"@,
                port: None,
                remote_cmd: None,
            }),
    {
        SshExcutor::new("ansible@ansiblecluster")
    }

    /// The storage-management target that runs home commands.
    pub fn new_student_storage() -> (r: SshExcutor)
        ensures
            r@ == (SshExcutorView {
                ssh_pub_key: None,
                address: "root@student-storage"@,
                port: None,
                remote_cmd: None,
            }),
    {
        SshExcutor::new("root@student-storage")
    }

    /// The same invocation, on this port.
    pub fn with_port(self, port: u16) -> (r: SshExcutor)
        ensures
            r@ == (SshExcutorView { port: Some(port), ..self@ }),
    {
        SshExcutor { port: Some(port), ..self }
    }

    /// The same invocation, carrying this remote command.
    pub fn with_remote_cmd(self, remote_cmd: RawCommand) -> (r: SshExcutor)
        ensures
            r@ == (SshExcutorView { remote_cmd: Some(remote_cmd@), ..self@ }),
    {
        SshExcutor { remote_cmd: Some(remote_cmd), ..self }
    }

    /// The same invocation, authenticating with this identity key.
    pub fn with_ssh_pub_key(self, ssh_pub_key: String) -> (r: SshExcutor)
        ensures
            r@ == (SshExcutorView { ssh_pub_key: Some(ssh_pub_key@), ..self@ }),
    {
        SshExcutor { ssh_pub_key: Some(ssh_pub_key), ..self }
    }

    /// The argument vector this invocation hands to the `ssh` program.
    /// The caller spawns `ssh` on exactly these arguments and reports the
    /// process's exit status back to the engine.
    pub fn into_args(self) -> (r: Vec<String>)
        ensures
            r.deep_view() == ssh_args(self@),
    {
        let ghost v = self@;
        let SshExcutor { ssh_pub_key, address, port, remote_cmd } = self;
        let mut r: Vec<String> = Vec::new();
        match &ssh_pub_key {
            Some(key) => {
                r.push(String::from_str("-i"));
                r.push(key.clone());
            },
            None => {},
        }
        match port {
            Some(p) => {
                r.push(String::from_str("-p"));
                r.push(u16_to_string(p));
            },
            None => {},
        }
        match &ssh_pub_key {
            Some(key) => {
                r.push(String::from_str("-i"));
                r.push(key.clone());
            },
            None => {},
        }
        r.push(address);
        match remote_cmd {
            Some(c) => {
                let line = c.into_string();
                let mut w = String::from_str("sudo su -l root -c '");
                w.append(line.as_str());
                w.append("'");
                r.push(w);
            },
            None => {},
        }
        proof {
            assert(r.deep_view() =~~= ssh_args(v));
        }
        r
    }
}

/// Round trip of the reboot builder: for any host, rendering
/// `build_pc_reboot(host)` yields exactly `ansible-playbook -l <host>
/// reboot.yml`.
pub proof fn lemma_reboot_round_trip(host: Seq<char>)
    ensures
        (RawCommandView {
            cmd: "ansible-playbook"@,
            args: seq!["-l"@, host, "reboot.yml"@],
        }).command_line() == "ansible-playbook -l "@ + host + " reboot.yml"@,
{
    reveal_strlit("ansible-playbook");
    reveal_strlit("-l");
    reveal_strlit("reboot.yml");
    reveal_strlit("ansible-playbook -l ");
    reveal_strlit(" reboot.yml");
    let args = seq!["-l"@, host, "reboot.yml"@];
    assert(args.drop_first() =~= seq![host, "reboot.yml"@]);
    assert(seq![host, "reboot.yml"@].drop_first() =~= seq!["reboot.yml"@]);
    assert(join_spaces(seq!["reboot.yml"@]) == "reboot.yml"@);
    assert(join_spaces(args.drop_first()) =~= host + seq![' '] + "reboot.yml"@);
    assert((RawCommandView { cmd: "ansible-playbook"@, args }).command_line()
        =~= "ansible-playbook -l "@ + host + " reboot.yml"@);
}

} // verus!
