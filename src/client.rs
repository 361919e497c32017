use vstd::prelude::*;

verus! {

/// Why running a payload's script did not succeed.
#[derive(Debug)]
pub enum ClientError {
    /// The operating system could not start `bash`.
    Execution,
    /// The script ran and exited with a non-zero status.
    Script,
    /// There is no readable `run.sh` in the payload directory.
    NoExecScript,
    /// The script matched a rule of the safety catalog.
    UnsafeScript { reason: String },
}

/// The description of an error.
pub open spec fn error_message(e: ClientError) -> Seq<char> {
    match e {
        ClientError::Execution => "Execution error"@,
        ClientError::Script => "Script error"@,
        ClientError::NoExecScript => "No execution script found"@,
        ClientError::UnsafeScript { reason } => "Unsafe script detected: "@ + reason@,
    }
}

impl ClientError {
    /// A human-readable description of the error.
    pub fn message(&self) -> (r: String)
        ensures
            r@ == error_message(*self),
    {
        match self {
            ClientError::Execution => String::from_str("Execution error"),
            ClientError::Script => String::from_str("Script error"),
            ClientError::NoExecScript => String::from_str("No execution script found"),
            ClientError::UnsafeScript { reason } => String::from_str(
                "Unsafe script detected: ",
            ).concat(reason.as_str()),
        }
    }
}

/// The script-safety catalog: each rule is a regular expression and the
/// reason reported when it matches, in the order in which they are tried.
///
/// This is a sanity check against obviously dangerous scripts, not a sandbox:
/// scripts are still expected to come from trusted sources, and a determined
/// author can get past it (comments, split variables and the like).
pub open spec fn danger_rules() -> Seq<(&'static str, &'static str)> {
    seq![
        // Destructive commands
        (r"rm\s+(-[a-zA-Z]*)?.*(/|~)", "destructive rm command"),
        (r"\bmkfs\b", "filesystem format command"),
        (r"dd\s+.*of=/dev", "direct device write"),
        (r"dd\s+.*if=/dev/(zero|urandom)", "disk-filling dd command"),
        // Sensitive file access
        (r"/etc/passwd", "access to /etc/passwd"),
        (r"/etc/shadow", "access to /etc/shadow"),
        (r"/etc/sudoers", "access to /etc/sudoers"),
        (r"/proc/", "access to /proc"),
        (r"/sys/", "access to /sys"),
        (r"~/.ssh/", "access to SSH keys"),
        (r"/root/", "access to root home"),
        (r"/var/run/docker\.sock", "access to Docker socket"),
        // Network exfiltration tools
        (r"\bcurl\b", "network tool: curl"),
        (r"\bwget\b", "network tool: wget"),
        (r"\bnc\b", "network tool: nc"),
        (r"\bncat\b", "network tool: ncat"),
        (r"\bsocat\b", "network tool: socat"),
        (r"\bssh\b", "network tool: ssh"),
        (r"\bscp\b", "network tool: scp"),
        (r"\bsftp\b", "network tool: sftp"),
        (r"\btelnet\b", "network tool: telnet"),
        (r"\brsync\b", "network tool: rsync"),
        // Reverse shells
        (r"/dev/tcp/", "reverse shell via /dev/tcp"),
        (r"/dev/udp/", "reverse shell via /dev/udp"),
        // Privilege escalation
        (r"\bsudo\b", "privilege escalation: sudo"),
        (r"su\s+", "privilege escalation: su"),
        (r"chmod\s+[0-7]*[4-7][0-7]{2}|chmod\s+\+s", "dangerous chmod"),
        (r"\bchown\b", "ownership change: chown"),
        // Container/system escape
        (r"\bchroot\b", "container escape: chroot"),
        (r"\bnsenter\b", "container escape: nsenter"),
        (r"\bunshare\b", "container escape: unshare"),
        (r"\bmount\b", "filesystem manipulation: mount"),
        (r"\bumount\b", "filesystem manipulation: umount"),
        (r"\bdocker\b", "container escape: docker"),
        (r"\bkubectl\b", "container escape: kubectl"),
        // Kernel/system manipulation
        (r"\bsysctl\b", "kernel manipulation: sysctl"),
        (r"\bmodprobe\b", "kernel module: modprobe"),
        (r"\binsmod\b", "kernel module: insmod"),
        (r"\brmmod\b", "kernel module: rmmod"),
        (r"\biptables\b", "firewall manipulation: iptables"),
        (r"\bnftables\b", "firewall manipulation: nftables"),
        // Obfuscated execution
        (r"base64.*\|\s*(bash|sh)", "obfuscated execution: base64 pipe to shell"),
        (r"\beval\s+", "dynamic code execution: eval"),
        (r"\bpython[23]?\s+-c\b", "inline interpreter: python"),
        (r"\bperl\s+-e\b", "inline interpreter: perl"),
        (r"\bruby\s+-e\b", "inline interpreter: ruby"),
        // Persistence mechanisms
        (r"\bcrontab\b", "persistence: crontab"),
        (r"/etc/cron", "persistence: cron directory"),
        (r"\bsystemctl\b", "persistence: systemctl"),
        (r"\bservice\s+", "persistence: service command"),
        (r"\bat\b", "persistence: at scheduler"),
        // Fork bombs
        (r":\(\)\{.*:\|:", "fork bomb"),
        // Resource exhaustion
        (r"\bstress\b", "resource exhaustion: stress"),
        (r"\bstress-ng\b", "resource exhaustion: stress-ng"),
        // Crypto mining
        (r"\bxmrig\b", "crypto mining: xmrig"),
        (r"\bminerd\b", "crypto mining: minerd"),
        (r"\bcpuminer\b", "crypto mining: cpuminer"),
        // Environment secrets
        (r"\$AWS_", "environment secret: AWS"),
        (r"\$SECRET", "environment secret: SECRET"),
        (r"\$TOKEN", "environment secret: TOKEN"),
        (r"\$PASSWORD", "environment secret: PASSWORD"),
        (r"\$API_KEY", "environment secret: API_KEY"),
    ]
}

/// The catalog of `danger_rules`, as a value.
pub fn danger_rule_table() -> (r: Vec<(&'static str, &'static str)>)
    ensures
        r@ == danger_rules(),
{
    vec![
        (r"rm\s+(-[a-zA-Z]*)?.*(/|~)", "destructive rm command"),
        (r"\bmkfs\b", "filesystem format command"),
        (r"dd\s+.*of=/dev", "direct device write"),
        (r"dd\s+.*if=/dev/(zero|urandom)", "disk-filling dd command"),
        (r"/etc/passwd", "access to /etc/passwd"),
        (r"/etc/shadow", "access to /etc/shadow"),
        (r"/etc/sudoers", "access to /etc/sudoers"),
        (r"/proc/", "access to /proc"),
        (r"/sys/", "access to /sys"),
        (r"~/.ssh/", "access to SSH keys"),
        (r"/root/", "access to root home"),
        (r"/var/run/docker\.sock", "access to Docker socket"),
        (r"\bcurl\b", "network tool: curl"),
        (r"\bwget\b", "network tool: wget"),
        (r"\bnc\b", "network tool: nc"),
        (r"\bncat\b", "network tool: ncat"),
        (r"\bsocat\b", "network tool: socat"),
        (r"\bssh\b", "network tool: ssh"),
        (r"\bscp\b", "network tool: scp"),
        (r"\bsftp\b", "network tool: sftp"),
        (r"\btelnet\b", "network tool: telnet"),
        (r"\brsync\b", "network tool: rsync"),
        (r"/dev/tcp/", "reverse shell via /dev/tcp"),
        (r"/dev/udp/", "reverse shell via /dev/udp"),
        (r"\bsudo\b", "privilege escalation: sudo"),
        (r"su\s+", "privilege escalation: su"),
        (r"chmod\s+[0-7]*[4-7][0-7]{2}|chmod\s+\+s", "dangerous chmod"),
        (r"\bchown\b", "ownership change: chown"),
        (r"\bchroot\b", "container escape: chroot"),
        (r"\bnsenter\b", "container escape: nsenter"),
        (r"\bunshare\b", "container escape: unshare"),
        (r"\bmount\b", "filesystem manipulation: mount"),
        (r"\bumount\b", "filesystem manipulation: umount"),
        (r"\bdocker\b", "container escape: docker"),
        (r"\bkubectl\b", "container escape: kubectl"),
        (r"\bsysctl\b", "kernel manipulation: sysctl"),
        (r"\bmodprobe\b", "kernel module: modprobe"),
        (r"\binsmod\b", "kernel module: insmod"),
        (r"\brmmod\b", "kernel module: rmmod"),
        (r"\biptables\b", "firewall manipulation: iptables"),
        (r"\bnftables\b", "firewall manipulation: nftables"),
        (r"base64.*\|\s*(bash|sh)", "obfuscated execution: base64 pipe to shell"),
        (r"\beval\s+", "dynamic code execution: eval"),
        (r"\bpython[23]?\s+-c\b", "inline interpreter: python"),
        (r"\bperl\s+-e\b", "inline interpreter: perl"),
        (r"\bruby\s+-e\b", "inline interpreter: ruby"),
        (r"\bcrontab\b", "persistence: crontab"),
        (r"/etc/cron", "persistence: cron directory"),
        (r"\bsystemctl\b", "persistence: systemctl"),
        (r"\bservice\s+", "persistence: service command"),
        (r"\bat\b", "persistence: at scheduler"),
        (r":\(\)\{.*:\|:", "fork bomb"),
        (r"\bstress\b", "resource exhaustion: stress"),
        (r"\bstress-ng\b", "resource exhaustion: stress-ng"),
        (r"\bxmrig\b", "crypto mining: xmrig"),
        (r"\bminerd\b", "crypto mining: minerd"),
        (r"\bcpuminer\b", "crypto mining: cpuminer"),
        (r"\$AWS_", "environment secret: AWS"),
        (r"\$SECRET", "environment secret: SECRET"),
        (r"\$TOKEN", "environment secret: TOKEN"),
        (r"\$PASSWORD", "environment secret: PASSWORD"),
        (r"\$API_KEY", "environment secret: API_KEY"),
    ]
}

/// What compiling `pattern` with the regex crate and searching `text` for it
/// gives: `None` when the pattern does not compile, else whether it matches.
pub uninterp spec fn regex_search(pattern: Seq<char>, text: Seq<char>) -> Option<bool>;

/// Relies on `regex::Regex::new` to compile `pattern` and on
/// `regex::Regex::is_match` to report whether it matches anywhere in `text`;
/// the outcome depends on the two texts alone.
#[verifier::external_body]
fn pattern_search(pattern: &str, text: &str) -> (r: Option<bool>)
    ensures
        r == regex_search(pattern@, text@),
{
    match regex::Regex::new(pattern) {
        Ok(re) => Some(re.is_match(text)),
        Err(_) => None,
    }
}

/// A rule fires unless its pattern compiled and did not match: a rule that
/// cannot be checked refuses the script rather than letting it through.
pub open spec fn fires(outcome: Option<bool>) -> bool {
    outcome != Some(false)
}

/// The index of the first rule that fires, given each rule's search outcome.
pub open spec fn first_firing(outcomes: Seq<Option<bool>>) -> Option<int>
    decreases outcomes.len(),
{
    if outcomes.len() == 0 {
        None
    } else {
        match first_firing(outcomes.drop_last()) {
            Some(i) => Some(i),
            None => if fires(outcomes.last()) {
                Some(outcomes.len() - 1)
            } else {
                None
            },
        }
    }
}

/// The search outcome of every rule of the catalog on `content`.
pub open spec fn rule_outcomes(content: Seq<char>) -> Seq<Option<bool>> {
    Seq::new(danger_rules().len(), |i: int| regex_search(danger_rules()[i].0@, content))
}

proof fn lemma_first_firing_bounds(outcomes: Seq<Option<bool>>)
    ensures
        first_firing(outcomes) matches Some(i) ==> 0 <= i < outcomes.len() && fires(outcomes[i])
            && forall|j: int| 0 <= j < i ==> !fires(#[trigger] outcomes[j]),
        first_firing(outcomes) is None ==> forall|j: int|
            0 <= j < outcomes.len() ==> !fires(#[trigger] outcomes[j]),
    decreases outcomes.len(),
{
    if outcomes.len() > 0 {
        lemma_first_firing_bounds(outcomes.drop_last());
        assert forall|j: int| 0 <= j < outcomes.len() - 1 implies outcomes[j]
            == outcomes.drop_last()[j] by {}
    }
}

/// The safety verdict from each rule's search outcome, in catalog order: the
/// first rule that fires refuses the script with its reason.
pub fn safety_verdict(outcomes: &Vec<Option<bool>>) -> (r: Result<(), ClientError>)
    requires
        outcomes@.len() == danger_rules().len(),
    ensures
        first_firing(outcomes@) is None <==> r is Ok,
        first_firing(outcomes@) matches Some(i) ==> (r matches Err(
            ClientError::UnsafeScript { reason },
        ) && reason@ == danger_rules()[i].1@),
{
    let rules = danger_rule_table();
    let mut i: usize = 0;
    while i < outcomes.len()
        invariant
            rules@ == danger_rules(),
            outcomes@.len() == danger_rules().len(),
            i <= outcomes@.len(),
            first_firing(outcomes@.take(i as int)) is None,
        decreases outcomes@.len() - i,
    {
        let o = outcomes[i];
        proof {
            let t = outcomes@.take(i as int + 1);
            assert(t.drop_last() =~= outcomes@.take(i as int));
        }
        if o != Some(false) {
            proof {
                lemma_first_firing_prefix(outcomes@, i as int + 1);
            }
            return Err(ClientError::UnsafeScript { reason: String::from_str(rules[i].1) });
        }
        i += 1;
    }
    assert(outcomes@.take(outcomes@.len() as int) =~= outcomes@);
    Ok(())
}

/// A script in which the pattern of some rule of the catalog is found is
/// refused; a script on which no rule fires passes it.
pub proof fn lemma_unsafe_script_refused(content: Seq<char>, i: int)
    ensures
        0 <= i < danger_rules().len() && regex_search(danger_rules()[i].0@, content) == Some(true)
            ==> first_firing(rule_outcomes(content)) is Some,
        (forall|j: int|
            0 <= j < danger_rules().len() ==> #[trigger] regex_search(danger_rules()[j].0@, content)
                == Some(false)) ==> first_firing(rule_outcomes(content)) is None,
{
    let o = rule_outcomes(content);
    lemma_first_firing_bounds(o);
    if 0 <= i < danger_rules().len() && regex_search(danger_rules()[i].0@, content) == Some(true) {
        assert(fires(o[i]));
    }
    if first_firing(o) is Some {
        let k = first_firing(o)->0;
        assert(fires(o[k]));
    }
}

/// Once some rule fires within a prefix, the first firing rule of the whole
/// sequence is the prefix's.
proof fn lemma_first_firing_prefix(outcomes: Seq<Option<bool>>, k: int)
    requires
        0 <= k <= outcomes.len(),
        first_firing(outcomes.take(k)) is Some,
    ensures
        first_firing(outcomes) == first_firing(outcomes.take(k)),
    decreases outcomes.len() - k,
{
    if k < outcomes.len() {
        let t = outcomes.take(k + 1);
        assert(t.drop_last() =~= outcomes.take(k));
        lemma_first_firing_prefix(outcomes, k + 1);
    } else {
        assert(outcomes.take(k) =~= outcomes);
    }
}

/// Checks a script's text against the safety catalog. `Ok` exactly when no
/// rule fires; otherwise the first firing rule's reason.
pub fn validate_script(content: &str) -> (r: Result<(), ClientError>)
    ensures
        first_firing(rule_outcomes(content@)) is None <==> r is Ok,
        first_firing(rule_outcomes(content@)) matches Some(i) ==> (r matches Err(
            ClientError::UnsafeScript { reason },
        ) && reason@ == danger_rules()[i].1@),
{
    let rules = danger_rule_table();
    let mut outcomes: Vec<Option<bool>> = Vec::new();
    let mut i: usize = 0;
    while i < rules.len()
        invariant
            rules@ == danger_rules(),
            i <= rules@.len(),
            outcomes@ =~= rule_outcomes(content@).take(i as int),
        decreases rules@.len() - i,
    {
        let (pattern, _) = rules[i];
        let o = pattern_search(pattern, content);
        outcomes.push(o);
        i += 1;
    }
    assert(outcomes@ =~= rule_outcomes(content@));
    safety_verdict(&outcomes)
}

/// The check made before a payload's script is run: a script that could not
/// be read is missing; a readable one must pass the safety catalog.
pub fn script_precheck(content: Option<&str>) -> (r: Result<(), ClientError>)
    ensures
        content is None ==> r matches Err(ClientError::NoExecScript),
        content matches Some(c) ==> (first_firing(rule_outcomes(c@)) is None <==> r is Ok),
        content matches Some(c) ==> (first_firing(rule_outcomes(c@)) matches Some(i) ==> (
        r matches Err(ClientError::UnsafeScript { reason }) && reason@ == danger_rules()[i].1@)),
{
    match content {
        None => Err(ClientError::NoExecScript),
        Some(c) => validate_script(c),
    }
}

/// The outcome of running the script: `None` when `bash` could not be
/// started, else whether it exited with status zero.
pub open spec fn run_result(exited_ok: Option<bool>) -> Result<(), ClientError> {
    match exited_ok {
        None => Err(ClientError::Execution),
        Some(false) => Err(ClientError::Script),
        Some(true) => Ok(()),
    }
}

/// Turns how the script's process ended into the outcome of running it.
pub fn run_outcome(exited_ok: Option<bool>) -> (r: Result<(), ClientError>)
    ensures
        r == run_result(exited_ok),
{
    match exited_ok {
        None => Err(ClientError::Execution),
        Some(false) => Err(ClientError::Script),
        Some(true) => Ok(()),
    }
}

} // verus!
