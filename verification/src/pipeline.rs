use vstd::prelude::*;
use crate::profile::{AiAgent, Database, DeploymentTarget, ReverseProxy};
use crate::text::contains_spec;

verus! {

/// The deployment pipeline: a shell script and a display label per target.
pub struct Pipeline;

/// The label shown for a target.
pub open spec fn label_spec(t: DeploymentTarget) -> Seq<char> {
    match t {
        DeploymentTarget::Hardening => "System Hardening"@,
        DeploymentTarget::Database(Database::Postgres) => "Postgres"@,
        DeploymentTarget::Database(Database::Redis) => "Redis"@,
        DeploymentTarget::Database(Database::MongoDB) => "MongoDB"@,
        DeploymentTarget::ReverseProxy(ReverseProxy::Caddy) => "Caddy"@,
        DeploymentTarget::ReverseProxy(ReverseProxy::Nginx) => "Nginx"@,
        DeploymentTarget::AiAgent(AiAgent::Hermes) => "Hermes Agent"@,
        DeploymentTarget::AiAgent(AiAgent::OpenClaw) => "OpenClaw Agent"@,
        DeploymentTarget::DockerCompose => "Docker Compose"@,
        DeploymentTarget::Binary => "Binary Deployment"@,
    }
}

/// The shell script run on the remote host for a target.
pub open spec fn script_spec(t: DeploymentTarget) -> Seq<char> {
    match t {
        DeploymentTarget::Hardening => r#"set -e
echo "=== System Hardening ==="
ufw --force reset
ufw default deny incoming
ufw default allow outgoing
ufw allow ssh
ufw --force enable
echo "UFW enabled with SSH only"

sed -i 's/^#PermitRootLogin yes/PermitRootLogin prohibit-password/' /etc/ssh/sshd_config
sed -i 's/^#PasswordAuthentication yes/PasswordAuthentication no/' /etc/ssh/sshd_config
systemctl restart sshd
echo "SSH hardened"

apt-get update -qq
apt-get install -y -qq fail2ban
systemctl enable --now fail2ban
echo "fail2ban installed and running"
echo "=== Hardening complete ==="
"#@,
        DeploymentTarget::Database(Database::Postgres) => r#"set -e
echo "=== Installing Postgres ==="
apt-get update -qq
apt-get install -y -qq postgresql postgresql-contrib
systemctl enable --now postgresql
echo "Postgres $(psql --version) installed"
echo "=== Postgres done ==="
"#@,
        DeploymentTarget::Database(Database::Redis) => r#"set -e
echo "=== Installing Redis ==="
apt-get update -qq
apt-get install -y -qq redis-server
systemctl enable --now redis-server
echo "Redis $(redis-server --version) installed"
echo "=== Redis done ==="
"#@,
        DeploymentTarget::Database(Database::MongoDB) => r#"set -e
echo "=== Installing MongoDB ==="
apt-get update -qq
apt-get install -y -qq gnupg curl
curl -fsSL https://www.mongodb.org/static/pgp/server-7.0.asc | gpg --dearmor -o /usr/share/keyrings/mongodb-server-7.0.gpg
echo "deb [ signed-by=/usr/share/keyrings/mongodb-server-7.0.gpg ] http://repo.mongodb.org/apt/debian bookworm/mongodb-org/7.0 main" | tee /etc/apt/sources.list.d/mongodb-org-7.0.list
apt-get update -qq
apt-get install -y -qq mongodb-org
systemctl enable --now mongod
echo "MongoDB installed"
echo "=== MongoDB done ==="
"#@,
        DeploymentTarget::ReverseProxy(ReverseProxy::Caddy) => r#"set -e
echo "=== Installing Caddy ==="
apt-get update -qq
apt-get install -y -qq debian-keyring debian-archive-keyring apt-transport-https
curl -1sLf 'https://dl.cloudsmith.io/public/caddy/stable/gpg.key' | gpg --dearmor -o /usr/share/keyrings/caddy-stable-archive-keyring.gpg
curl -1sLf 'https://dl.cloudsmith.io/public/caddy/stable/debian.deb.txt' | tee /etc/apt/sources.list.d/caddy-stable.list
apt-get update -qq
apt-get install -y -qq caddy
echo "Caddy $(caddy version) installed"
echo "=== Caddy done ==="
"#@,
        DeploymentTarget::ReverseProxy(ReverseProxy::Nginx) => r#"set -e
echo "=== Installing Nginx ==="
apt-get update -qq
apt-get install -y -qq nginx
systemctl enable --now nginx
echo "Nginx $(nginx -v 2>&1) installed"
echo "=== Nginx done ==="
"#@,
        DeploymentTarget::AiAgent(AiAgent::Hermes) => r#"set -e
echo "=== Installing Hermes AI Agent ==="
apt-get update -qq
apt-get install -y -qq python3 python3-pip git
git clone https://github.com/NousResearch/hermes.git /opt/hermes 2>/dev/null || (cd /opt/hermes && git pull)
cd /opt/hermes
pip3 install -r requirements.txt 2>/dev/null || true
echo "Hermes agent installed at /opt/hermes"
echo "=== Hermes done ==="
"#@,
        DeploymentTarget::AiAgent(AiAgent::OpenClaw) => r#"set -e
echo "=== Installing OpenClaw AI Agent ==="
apt-get update -qq
apt-get install -y -qq python3 python3-pip git
git clone https://github.com/openclaw/openclaw.git /opt/openclaw 2>/dev/null || (cd /opt/openclaw && git pull)
cd /opt/openclaw
pip3 install -r requirements.txt 2>/dev/null || true
echo "OpenClaw agent installed at /opt/openclaw"
echo "=== OpenClaw done ==="
"#@,
        DeploymentTarget::DockerCompose => r#"set -e
echo "=== Installing Docker ==="
apt-get update -qq
apt-get install -y -qq ca-certificates curl
install -m 0755 -d /etc/apt/keyrings
curl -fsSL https://download.docker.com/linux/debian/gpg -o /etc/apt/keyrings/docker.asc
chmod a+r /etc/apt/keyrings/docker.asc
echo "deb [arch=$(dpkg --print-architecture) signed-by=/etc/apt/keyrings/docker.asc] https://download.docker.com/linux/debian $(. /etc/os-release && echo "$VERSION_CODENAME") stable" | tee /etc/apt/sources.list.d/docker.list > /dev/null
apt-get update -qq
apt-get install -y -qq docker-ce docker-ce-cli containerd.io docker-compose-plugin
systemctl enable --now docker
echo "Docker $(docker --version) installed"
echo "=== Docker done ==="
"#@,
        DeploymentTarget::Binary => r#"set -e
echo "=== Binary Deployment ==="
echo "Upload your binary to /opt/app and run it with systemd"
echo "Example:"
echo "  scp ./my-app user@host:/opt/app/"
echo "  create /etc/systemd/system/my-app.service"
echo "  systemctl enable --now my-app"
echo "=== Binary deploy scaffold done ==="
"#@,
    }
}

impl Pipeline {
    /// The shell script that sets up a deployment target.
    pub fn script_for(target: &DeploymentTarget) -> (r: &'static str)
        ensures
            r@ == script_spec(*target),
    {
        match target {
            DeploymentTarget::Hardening => r#"set -e
echo "=== System Hardening ==="
ufw --force reset
ufw default deny incoming
ufw default allow outgoing
ufw allow ssh
ufw --force enable
echo "UFW enabled with SSH only"

sed -i 's/^#PermitRootLogin yes/PermitRootLogin prohibit-password/' /etc/ssh/sshd_config
sed -i 's/^#PasswordAuthentication yes/PasswordAuthentication no/' /etc/ssh/sshd_config
systemctl restart sshd
echo "SSH hardened"

apt-get update -qq
apt-get install -y -qq fail2ban
systemctl enable --now fail2ban
echo "fail2ban installed and running"
echo "=== Hardening complete ==="
"#,
            DeploymentTarget::Database(Database::Postgres) => r#"set -e
echo "=== Installing Postgres ==="
apt-get update -qq
apt-get install -y -qq postgresql postgresql-contrib
systemctl enable --now postgresql
echo "Postgres $(psql --version) installed"
echo "=== Postgres done ==="
"#,
            DeploymentTarget::Database(Database::Redis) => r#"set -e
echo "=== Installing Redis ==="
apt-get update -qq
apt-get install -y -qq redis-server
systemctl enable --now redis-server
echo "Redis $(redis-server --version) installed"
echo "=== Redis done ==="
"#,
            DeploymentTarget::Database(Database::MongoDB) => r#"set -e
echo "=== Installing MongoDB ==="
apt-get update -qq
apt-get install -y -qq gnupg curl
curl -fsSL https://www.mongodb.org/static/pgp/server-7.0.asc | gpg --dearmor -o /usr/share/keyrings/mongodb-server-7.0.gpg
echo "deb [ signed-by=/usr/share/keyrings/mongodb-server-7.0.gpg ] http://repo.mongodb.org/apt/debian bookworm/mongodb-org/7.0 main" | tee /etc/apt/sources.list.d/mongodb-org-7.0.list
apt-get update -qq
apt-get install -y -qq mongodb-org
systemctl enable --now mongod
echo "MongoDB installed"
echo "=== MongoDB done ==="
"#,
            DeploymentTarget::ReverseProxy(ReverseProxy::Caddy) => r#"set -e
echo "=== Installing Caddy ==="
apt-get update -qq
apt-get install -y -qq debian-keyring debian-archive-keyring apt-transport-https
curl -1sLf 'https://dl.cloudsmith.io/public/caddy/stable/gpg.key' | gpg --dearmor -o /usr/share/keyrings/caddy-stable-archive-keyring.gpg
curl -1sLf 'https://dl.cloudsmith.io/public/caddy/stable/debian.deb.txt' | tee /etc/apt/sources.list.d/caddy-stable.list
apt-get update -qq
apt-get install -y -qq caddy
echo "Caddy $(caddy version) installed"
echo "=== Caddy done ==="
"#,
            DeploymentTarget::ReverseProxy(ReverseProxy::Nginx) => r#"set -e
echo "=== Installing Nginx ==="
apt-get update -qq
apt-get install -y -qq nginx
systemctl enable --now nginx
echo "Nginx $(nginx -v 2>&1) installed"
echo "=== Nginx done ==="
"#,
            DeploymentTarget::AiAgent(AiAgent::Hermes) => r#"set -e
echo "=== Installing Hermes AI Agent ==="
apt-get update -qq
apt-get install -y -qq python3 python3-pip git
git clone https://github.com/NousResearch/hermes.git /opt/hermes 2>/dev/null || (cd /opt/hermes && git pull)
cd /opt/hermes
pip3 install -r requirements.txt 2>/dev/null || true
echo "Hermes agent installed at /opt/hermes"
echo "=== Hermes done ==="
"#,
            DeploymentTarget::AiAgent(AiAgent::OpenClaw) => r#"set -e
echo "=== Installing OpenClaw AI Agent ==="
apt-get update -qq
apt-get install -y -qq python3 python3-pip git
git clone https://github.com/openclaw/openclaw.git /opt/openclaw 2>/dev/null || (cd /opt/openclaw && git pull)
cd /opt/openclaw
pip3 install -r requirements.txt 2>/dev/null || true
echo "OpenClaw agent installed at /opt/openclaw"
echo "=== OpenClaw done ==="
"#,
            DeploymentTarget::DockerCompose => r#"set -e
echo "=== Installing Docker ==="
apt-get update -qq
apt-get install -y -qq ca-certificates curl
install -m 0755 -d /etc/apt/keyrings
curl -fsSL https://download.docker.com/linux/debian/gpg -o /etc/apt/keyrings/docker.asc
chmod a+r /etc/apt/keyrings/docker.asc
echo "deb [arch=$(dpkg --print-architecture) signed-by=/etc/apt/keyrings/docker.asc] https://download.docker.com/linux/debian $(. /etc/os-release && echo "$VERSION_CODENAME") stable" | tee /etc/apt/sources.list.d/docker.list > /dev/null
apt-get update -qq
apt-get install -y -qq docker-ce docker-ce-cli containerd.io docker-compose-plugin
systemctl enable --now docker
echo "Docker $(docker --version) installed"
echo "=== Docker done ==="
"#,
            DeploymentTarget::Binary => r#"set -e
echo "=== Binary Deployment ==="
echo "Upload your binary to /opt/app and run it with systemd"
echo "Example:"
echo "  scp ./my-app user@host:/opt/app/"
echo "  create /etc/systemd/system/my-app.service"
echo "  systemctl enable --now my-app"
echo "=== Binary deploy scaffold done ==="
"#,
        }
    }

    /// The human-readable label of a deployment target.
    pub fn target_label(target: &DeploymentTarget) -> (r: &'static str)
        ensures
            r@ == label_spec(*target),
    {
        match target {
            DeploymentTarget::Hardening => "System Hardening",
            DeploymentTarget::Database(Database::Postgres) => "Postgres",
            DeploymentTarget::Database(Database::Redis) => "Redis",
            DeploymentTarget::Database(Database::MongoDB) => "MongoDB",
            DeploymentTarget::ReverseProxy(ReverseProxy::Caddy) => "Caddy",
            DeploymentTarget::ReverseProxy(ReverseProxy::Nginx) => "Nginx",
            DeploymentTarget::AiAgent(AiAgent::Hermes) => "Hermes Agent",
            DeploymentTarget::AiAgent(AiAgent::OpenClaw) => "OpenClaw Agent",
            DeploymentTarget::DockerCompose => "Docker Compose",
            DeploymentTarget::Binary => "Binary Deployment",
        }
    }
}

// ---------------------------------------------------------------------------
// Deployment scripts
// ---------------------------------------------------------------------------

/// The command by which the script of a target does its main work: the
/// package it installs, the repository it fetches, or the instruction it
/// gives.
pub open spec fn key_command(t: DeploymentTarget) -> Seq<char> {
    match t {
        DeploymentTarget::Hardening => "apt-get install -y -qq fail2ban"@,
        DeploymentTarget::Database(Database::Postgres) => "apt-get install -y -qq postgresql postgresql-contrib"@,
        DeploymentTarget::Database(Database::Redis) => "apt-get install -y -qq redis-server"@,
        DeploymentTarget::Database(Database::MongoDB) => "apt-get install -y -qq mongodb-org"@,
        DeploymentTarget::ReverseProxy(ReverseProxy::Caddy) => "apt-get install -y -qq caddy"@,
        DeploymentTarget::ReverseProxy(ReverseProxy::Nginx) => "apt-get install -y -qq nginx"@,
        DeploymentTarget::AiAgent(AiAgent::Hermes) => "git clone https://github.com/NousResearch/hermes.git /opt/hermes"@,
        DeploymentTarget::AiAgent(AiAgent::OpenClaw) => "git clone https://github.com/openclaw/openclaw.git /opt/openclaw"@,
        DeploymentTarget::DockerCompose => "apt-get install -y -qq docker-ce docker-ce-cli containerd.io docker-compose-plugin"@,
        DeploymentTarget::Binary => "Upload your binary to /opt/app and run it with systemd"@,
    }
}

/// Every target's script carries out that target's own work: it runs the
/// target's key command (for Nginx, `apt-get install -y -qq nginx`).
pub proof fn law_script_runs_key_command(t: DeploymentTarget)
    ensures
        contains_spec(script_spec(t), key_command(t)),
{
    match t {
        DeploymentTarget::Hardening => {
            reveal_strlit(r#"set -e
echo "=== System Hardening ==="
ufw --force reset
ufw default deny incoming
ufw default allow outgoing
ufw allow ssh
ufw --force enable
echo "UFW enabled with SSH only"

sed -i 's/^#PermitRootLogin yes/PermitRootLogin prohibit-password/' /etc/ssh/sshd_config
sed -i 's/^#PasswordAuthentication yes/PasswordAuthentication no/' /etc/ssh/sshd_config
systemctl restart sshd
echo "SSH hardened"

apt-get update -qq
apt-get install -y -qq fail2ban
systemctl enable --now fail2ban
echo "fail2ban installed and running"
echo "=== Hardening complete ==="
"#);
            reveal_strlit("apt-get install -y -qq fail2ban");
            assert(script_spec(t).subrange(417int, 417int + key_command(t).len()) =~= key_command(t));
        },
        DeploymentTarget::Database(Database::Postgres) => {
            reveal_strlit(r#"set -e
echo "=== Installing Postgres ==="
apt-get update -qq
apt-get install -y -qq postgresql postgresql-contrib
systemctl enable --now postgresql
echo "Postgres $(psql --version) installed"
echo "=== Postgres done ==="
"#);
            reveal_strlit("apt-get install -y -qq postgresql postgresql-contrib");
            assert(script_spec(t).subrange(61int, 61int + key_command(t).len()) =~= key_command(t));
        },
        DeploymentTarget::Database(Database::Redis) => {
            reveal_strlit(r#"set -e
echo "=== Installing Redis ==="
apt-get update -qq
apt-get install -y -qq redis-server
systemctl enable --now redis-server
echo "Redis $(redis-server --version) installed"
echo "=== Redis done ==="
"#);
            reveal_strlit("apt-get install -y -qq redis-server");
            assert(script_spec(t).subrange(58int, 58int + key_command(t).len()) =~= key_command(t));
        },
        DeploymentTarget::Database(Database::MongoDB) => {
            reveal_strlit(r#"set -e
echo "=== Installing MongoDB ==="
apt-get update -qq
apt-get install -y -qq gnupg curl
curl -fsSL https://www.mongodb.org/static/pgp/server-7.0.asc | gpg --dearmor -o /usr/share/keyrings/mongodb-server-7.0.gpg
echo "deb [ signed-by=/usr/share/keyrings/mongodb-server-7.0.gpg ] http://repo.mongodb.org/apt/debian bookworm/mongodb-org/7.0 main" | tee /etc/apt/sources.list.d/mongodb-org-7.0.list
apt-get update -qq
apt-get install -y -qq mongodb-org
systemctl enable --now mongod
echo "MongoDB installed"
echo "=== MongoDB done ==="
"#);
            reveal_strlit("apt-get install -y -qq mongodb-org");
            assert(script_spec(t).subrange(420int, 420int + key_command(t).len()) =~= key_command(t));
        },
        DeploymentTarget::ReverseProxy(ReverseProxy::Caddy) => {
            reveal_strlit(r#"set -e
echo "=== Installing Caddy ==="
apt-get update -qq
apt-get install -y -qq debian-keyring debian-archive-keyring apt-transport-https
curl -1sLf 'https://dl.cloudsmith.io/public/caddy/stable/gpg.key' | gpg --dearmor -o /usr/share/keyrings/caddy-stable-archive-keyring.gpg
curl -1sLf 'https://dl.cloudsmith.io/public/caddy/stable/debian.deb.txt' | tee /etc/apt/sources.list.d/caddy-stable.list
apt-get update -qq
apt-get install -y -qq caddy
echo "Caddy $(caddy version) installed"
echo "=== Caddy done ==="
"#);
            reveal_strlit("apt-get install -y -qq caddy");
            assert(script_spec(t).subrange(417int, 417int + key_command(t).len()) =~= key_command(t));
        },
        DeploymentTarget::ReverseProxy(ReverseProxy::Nginx) => {
            reveal_strlit(r#"set -e
echo "=== Installing Nginx ==="
apt-get update -qq
apt-get install -y -qq nginx
systemctl enable --now nginx
echo "Nginx $(nginx -v 2>&1) installed"
echo "=== Nginx done ==="
"#);
            reveal_strlit("apt-get install -y -qq nginx");
            assert(script_spec(t).subrange(58int, 58int + key_command(t).len()) =~= key_command(t));
        },
        DeploymentTarget::AiAgent(AiAgent::Hermes) => {
            reveal_strlit(r#"set -e
echo "=== Installing Hermes AI Agent ==="
apt-get update -qq
apt-get install -y -qq python3 python3-pip git
git clone https://github.com/NousResearch/hermes.git /opt/hermes 2>/dev/null || (cd /opt/hermes && git pull)
cd /opt/hermes
pip3 install -r requirements.txt 2>/dev/null || true
echo "Hermes agent installed at /opt/hermes"
echo "=== Hermes done ==="
"#);
            reveal_strlit("git clone https://github.com/NousResearch/hermes.git /opt/hermes");
            assert(script_spec(t).subrange(115int, 115int + key_command(t).len()) =~= key_command(t));
        },
        DeploymentTarget::AiAgent(AiAgent::OpenClaw) => {
            reveal_strlit(r#"set -e
echo "=== Installing OpenClaw AI Agent ==="
apt-get update -qq
apt-get install -y -qq python3 python3-pip git
git clone https://github.com/openclaw/openclaw.git /opt/openclaw 2>/dev/null || (cd /opt/openclaw && git pull)
cd /opt/openclaw
pip3 install -r requirements.txt 2>/dev/null || true
echo "OpenClaw agent installed at /opt/openclaw"
echo "=== OpenClaw done ==="
"#);
            reveal_strlit("git clone https://github.com/openclaw/openclaw.git /opt/openclaw");
            assert(script_spec(t).subrange(117int, 117int + key_command(t).len()) =~= key_command(t));
        },
        DeploymentTarget::DockerCompose => {
            reveal_strlit(r#"set -e
echo "=== Installing Docker ==="
apt-get update -qq
apt-get install -y -qq ca-certificates curl
install -m 0755 -d /etc/apt/keyrings
curl -fsSL https://download.docker.com/linux/debian/gpg -o /etc/apt/keyrings/docker.asc
chmod a+r /etc/apt/keyrings/docker.asc
echo "deb [arch=$(dpkg --print-architecture) signed-by=/etc/apt/keyrings/docker.asc] https://download.docker.com/linux/debian $(. /etc/os-release && echo "$VERSION_CODENAME") stable" | tee /etc/apt/sources.list.d/docker.list > /dev/null
apt-get update -qq
apt-get install -y -qq docker-ce docker-ce-cli containerd.io docker-compose-plugin
systemctl enable --now docker
echo "Docker $(docker --version) installed"
echo "=== Docker done ==="
"#);
            reveal_strlit("apt-get install -y -qq docker-ce docker-ce-cli containerd.io docker-compose-plugin");
            assert(script_spec(t).subrange(523int, 523int + key_command(t).len()) =~= key_command(t));
        },
        DeploymentTarget::Binary => {
            reveal_strlit(r#"set -e
echo "=== Binary Deployment ==="
echo "Upload your binary to /opt/app and run it with systemd"
echo "Example:"
echo "  scp ./my-app user@host:/opt/app/"
echo "  create /etc/systemd/system/my-app.service"
echo "  systemctl enable --now my-app"
echo "=== Binary deploy scaffold done ==="
"#);
            reveal_strlit("Upload your binary to /opt/app and run it with systemd");
            assert(script_spec(t).subrange(46int, 46int + key_command(t).len()) =~= key_command(t));
        },
    }
}

/// Distinct targets have distinct scripts.
pub proof fn law_scripts_distinct(t1: DeploymentTarget, t2: DeploymentTarget)
    requires
        t1 != t2,
    ensures
        script_spec(t1) != script_spec(t2),
{
    lemma_script_len(t1);
    lemma_script_len(t2);
}

/// The length of a target's script.
pub open spec fn script_len(t: DeploymentTarget) -> nat {
    match t {
        DeploymentTarget::Hardening => 553,
        DeploymentTarget::Database(Database::Postgres) => 221,
        DeploymentTarget::Database(Database::Redis) => 205,
        DeploymentTarget::Database(Database::MongoDB) => 538,
        DeploymentTarget::ReverseProxy(ReverseProxy::Caddy) => 512,
        DeploymentTarget::ReverseProxy(ReverseProxy::Nginx) => 182,
        DeploymentTarget::AiAgent(AiAgent::Hermes) => 364,
        DeploymentTarget::AiAgent(AiAgent::OpenClaw) => 376,
        DeploymentTarget::DockerCompose => 707,
        DeploymentTarget::Binary => 293,
    }
}

proof fn lemma_script_len(t: DeploymentTarget)
    ensures
        script_spec(t).len() == script_len(t),
{
    match t {
        DeploymentTarget::Hardening => {
            reveal_strlit(r#"set -e
echo "=== System Hardening ==="
ufw --force reset
ufw default deny incoming
ufw default allow outgoing
ufw allow ssh
ufw --force enable
echo "UFW enabled with SSH only"

sed -i 's/^#PermitRootLogin yes/PermitRootLogin prohibit-password/' /etc/ssh/sshd_config
sed -i 's/^#PasswordAuthentication yes/PasswordAuthentication no/' /etc/ssh/sshd_config
systemctl restart sshd
echo "SSH hardened"

apt-get update -qq
apt-get install -y -qq fail2ban
systemctl enable --now fail2ban
echo "fail2ban installed and running"
echo "=== Hardening complete ==="
"#);
        },
        DeploymentTarget::Database(Database::Postgres) => {
            reveal_strlit(r#"set -e
echo "=== Installing Postgres ==="
apt-get update -qq
apt-get install -y -qq postgresql postgresql-contrib
systemctl enable --now postgresql
echo "Postgres $(psql --version) installed"
echo "=== Postgres done ==="
"#);
        },
        DeploymentTarget::Database(Database::Redis) => {
            reveal_strlit(r#"set -e
echo "=== Installing Redis ==="
apt-get update -qq
apt-get install -y -qq redis-server
systemctl enable --now redis-server
echo "Redis $(redis-server --version) installed"
echo "=== Redis done ==="
"#);
        },
        DeploymentTarget::Database(Database::MongoDB) => {
            reveal_strlit(r#"set -e
echo "=== Installing MongoDB ==="
apt-get update -qq
apt-get install -y -qq gnupg curl
curl -fsSL https://www.mongodb.org/static/pgp/server-7.0.asc | gpg --dearmor -o /usr/share/keyrings/mongodb-server-7.0.gpg
echo "deb [ signed-by=/usr/share/keyrings/mongodb-server-7.0.gpg ] http://repo.mongodb.org/apt/debian bookworm/mongodb-org/7.0 main" | tee /etc/apt/sources.list.d/mongodb-org-7.0.list
apt-get update -qq
apt-get install -y -qq mongodb-org
systemctl enable --now mongod
echo "MongoDB installed"
echo "=== MongoDB done ==="
"#);
        },
        DeploymentTarget::ReverseProxy(ReverseProxy::Caddy) => {
            reveal_strlit(r#"set -e
echo "=== Installing Caddy ==="
apt-get update -qq
apt-get install -y -qq debian-keyring debian-archive-keyring apt-transport-https
curl -1sLf 'https://dl.cloudsmith.io/public/caddy/stable/gpg.key' | gpg --dearmor -o /usr/share/keyrings/caddy-stable-archive-keyring.gpg
curl -1sLf 'https://dl.cloudsmith.io/public/caddy/stable/debian.deb.txt' | tee /etc/apt/sources.list.d/caddy-stable.list
apt-get update -qq
apt-get install -y -qq caddy
echo "Caddy $(caddy version) installed"
echo "=== Caddy done ==="
"#);
        },
        DeploymentTarget::ReverseProxy(ReverseProxy::Nginx) => {
            reveal_strlit(r#"set -e
echo "=== Installing Nginx ==="
apt-get update -qq
apt-get install -y -qq nginx
systemctl enable --now nginx
echo "Nginx $(nginx -v 2>&1) installed"
echo "=== Nginx done ==="
"#);
        },
        DeploymentTarget::AiAgent(AiAgent::Hermes) => {
            reveal_strlit(r#"set -e
echo "=== Installing Hermes AI Agent ==="
apt-get update -qq
apt-get install -y -qq python3 python3-pip git
git clone https://github.com/NousResearch/hermes.git /opt/hermes 2>/dev/null || (cd /opt/hermes && git pull)
cd /opt/hermes
pip3 install -r requirements.txt 2>/dev/null || true
echo "Hermes agent installed at /opt/hermes"
echo "=== Hermes done ==="
"#);
        },
        DeploymentTarget::AiAgent(AiAgent::OpenClaw) => {
            reveal_strlit(r#"set -e
echo "=== Installing OpenClaw AI Agent ==="
apt-get update -qq
apt-get install -y -qq python3 python3-pip git
git clone https://github.com/openclaw/openclaw.git /opt/openclaw 2>/dev/null || (cd /opt/openclaw && git pull)
cd /opt/openclaw
pip3 install -r requirements.txt 2>/dev/null || true
echo "OpenClaw agent installed at /opt/openclaw"
echo "=== OpenClaw done ==="
"#);
        },
        DeploymentTarget::DockerCompose => {
            reveal_strlit(r#"set -e
echo "=== Installing Docker ==="
apt-get update -qq
apt-get install -y -qq ca-certificates curl
install -m 0755 -d /etc/apt/keyrings
curl -fsSL https://download.docker.com/linux/debian/gpg -o /etc/apt/keyrings/docker.asc
chmod a+r /etc/apt/keyrings/docker.asc
echo "deb [arch=$(dpkg --print-architecture) signed-by=/etc/apt/keyrings/docker.asc] https://download.docker.com/linux/debian $(. /etc/os-release && echo "$VERSION_CODENAME") stable" | tee /etc/apt/sources.list.d/docker.list > /dev/null
apt-get update -qq
apt-get install -y -qq docker-ce docker-ce-cli containerd.io docker-compose-plugin
systemctl enable --now docker
echo "Docker $(docker --version) installed"
echo "=== Docker done ==="
"#);
        },
        DeploymentTarget::Binary => {
            reveal_strlit(r#"set -e
echo "=== Binary Deployment ==="
echo "Upload your binary to /opt/app and run it with systemd"
echo "Example:"
echo "  scp ./my-app user@host:/opt/app/"
echo "  create /etc/systemd/system/my-app.service"
echo "  systemctl enable --now my-app"
echo "=== Binary deploy scaffold done ==="
"#);
        },
    }
}

} // verus!
