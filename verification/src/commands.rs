//! The `aad-tool` command line behind each dashboard action, and whether it
//! runs as root through `pkexec`.

use vstd::prelude::*;
use crate::text::{decimal, decimal_string, lemma_views_push, opt_view, views};

verus! {

/// The arguments of an `aad-tool` run and its privilege tier.
pub struct AadToolCommand {
    pub args: Vec<String>,
    pub privileged: bool,
}

/// The arguments as text.
pub open spec fn argv(c: AadToolCommand) -> Seq<Seq<char>> {
    views(c.args@)
}

/// A switch that is present only when it is on.
pub open spec fn flag(on: bool, name: Seq<char>) -> Seq<Seq<char>> {
    if on {
        seq![name]
    } else {
        seq![]
    }
}

/// An option with its value, present only when there is a value.
pub open spec fn option_pair(name: Seq<char>, value: Option<Seq<char>>) -> Seq<Seq<char>> {
    match value {
        Some(v) => seq![name, v],
        None => seq![],
    }
}

/// An option with a number, present only when there is a number.
pub open spec fn number_pair(name: Seq<char>, value: Option<u32>) -> Seq<Seq<char>> {
    match value {
        Some(v) => seq![name, decimal(v as nat)],
        None => seq![],
    }
}

fn push_word(args: &mut Vec<String>, word: &str)
    ensures
        views(final(args)@) == views(old(args)@).push(word@),
{
    let w = String::from_str(word);
    let ghost before = args@;
    args.push(w);
    proof {
        lemma_views_push(before, w);
    }
}

fn push_value(args: &mut Vec<String>, value: String)
    ensures
        views(final(args)@) == views(old(args)@).push(value@),
{
    let ghost before = args@;
    let ghost v = value;
    args.push(value);
    proof {
        lemma_views_push(before, v);
    }
}

fn push_flag(args: &mut Vec<String>, on: bool, name: &str)
    ensures
        views(final(args)@) == views(old(args)@) + flag(on, name@),
{
    if on {
        push_word(args, name);
        assert(views(args@) =~= views(old(args)@) + flag(on, name@));
    } else {
        assert(views(args@) =~= views(old(args)@) + flag(on, name@));
    }
}

fn push_pair(args: &mut Vec<String>, name: &str, value: String)
    ensures
        views(final(args)@) == views(old(args)@) + seq![name@, value@],
{
    push_word(args, name);
    push_value(args, value);
    assert(views(args@) =~= views(old(args)@) + seq![name@, value@]);
}

fn push_option(args: &mut Vec<String>, name: &str, value: Option<String>)
    ensures
        views(final(args)@) == views(old(args)@) + option_pair(name@, opt_view(value)),
{
    match value {
        Some(v) => {
            push_pair(args, name, v);
        },
        None => {
            assert(views(args@) =~= views(old(args)@) + option_pair(name@, opt_view(value)));
        },
    }
}

fn push_number(args: &mut Vec<String>, name: &str, value: Option<u32>)
    ensures
        views(final(args)@) == views(old(args)@) + number_pair(name@, value),
{
    match value {
        Some(v) => {
            push_pair(args, name, decimal_string(v as u64));
        },
        None => {
            assert(views(args@) =~= views(old(args)@) + number_pair(name@, value));
        },
    }
}

fn words_of_lits(a: &str, b: &str) -> (r: Vec<String>)
    ensures
        views(r@) == seq![a@, b@],
{
    let mut r: Vec<String> = Vec::new();
    push_word(&mut r, a);
    push_word(&mut r, b);
    assert(views(r@) =~= seq![a@, b@]);
    r
}

fn single(a: &str) -> (r: Vec<String>)
    ensures
        views(r@) == seq![a@],
{
    let mut r: Vec<String> = Vec::new();
    push_word(&mut r, a);
    assert(views(r@) =~= seq![a@]);
    r
}

/// `aad-tool status`: is the daemon online. Unprivileged.
pub fn aad_tool_status() -> (c: AadToolCommand)
    ensures
        argv(c) == seq!["status"@],
        !c.privileged,
{
    AadToolCommand { args: single("status"), privileged: false }
}

/// `aad-tool tpm`: is the TPM used for key storage. Privileged.
pub fn aad_tool_tpm() -> (c: AadToolCommand)
    ensures
        argv(c) == seq!["tpm"@],
        c.privileged,
{
    AadToolCommand { args: single("tpm"), privileged: true }
}

/// `aad-tool version`. Unprivileged.
pub fn aad_tool_version() -> (c: AadToolCommand)
    ensures
        argv(c) == seq!["version"@],
        !c.privileged,
{
    AadToolCommand { args: single("version"), privileged: false }
}

/// The arguments of a cache clear.
pub open spec fn cache_clear_argv(nss: bool, mapped: bool, full: bool) -> Seq<Seq<char>> {
    seq!["cache-clear"@] + flag(nss, "--nss"@) + flag(mapped, "--mapped"@) + flag(full, "--full"@)
}

/// `aad-tool cache-clear`, with a switch for each granularity. Privileged.
pub fn aad_tool_cache_clear(nss: bool, mapped: bool, full: bool) -> (c: AadToolCommand)
    ensures
        argv(c) == cache_clear_argv(nss, mapped, full),
        c.privileged,
{
    let mut args = single("cache-clear");
    push_flag(&mut args, nss, "--nss");
    push_flag(&mut args, mapped, "--mapped");
    push_flag(&mut args, full, "--full");
    AadToolCommand { args, privileged: true }
}

/// The arguments of an enumeration.
pub open spec fn enumerate_argv(client_id: Option<Seq<char>>, name: Option<Seq<char>>) -> Seq<
    Seq<char>,
> {
    seq!["enumerate"@] + option_pair("--client-id"@, client_id) + option_pair("--name"@, name)
}

/// `aad-tool enumerate`, with an optional client and account. Privileged.
pub fn aad_tool_enumerate(client_id: Option<String>, name: Option<String>) -> (c: AadToolCommand)
    ensures
        argv(c) == enumerate_argv(opt_view(client_id), opt_view(name)),
        c.privileged,
{
    let mut args = single("enumerate");
    push_option(&mut args, "--client-id", client_id);
    push_option(&mut args, "--name", name);
    AadToolCommand { args, privileged: true }
}

/// The arguments that list application registrations.
pub open spec fn application_list_argv(client_id: Seq<char>, name: Option<Seq<char>>) -> Seq<
    Seq<char>,
> {
    seq!["application"@, "list"@, "--client-id"@, client_id] + option_pair("--name"@, name)
}

/// `aad-tool application list`. Unprivileged.
pub fn aad_tool_application_list(client_id: String, name: Option<String>) -> (c: AadToolCommand)
    ensures
        argv(c) == application_list_argv(client_id@, opt_view(name)),
        !c.privileged,
{
    let mut args = words_of_lits("application", "list");
    push_pair(&mut args, "--client-id", client_id);
    push_option(&mut args, "--name", name);
    AadToolCommand { args, privileged: false }
}

/// `--redirect-uri` and the URI, for each URI in order.
pub open spec fn redirect_pairs(uris: Seq<Seq<char>>) -> Seq<Seq<char>>
    decreases uris.len(),
{
    if uris.len() == 0 {
        seq![]
    } else {
        redirect_pairs(uris.drop_last()) + seq!["--redirect-uri"@, uris.last()]
    }
}

/// The arguments that register an application.
pub open spec fn application_create_argv(
    client_id: Seq<char>,
    display_name: Seq<char>,
    redirect_uris: Seq<Seq<char>>,
    user_read_write: bool,
    group_read_write: bool,
    name: Option<Seq<char>>,
) -> Seq<Seq<char>> {
    seq!["application"@, "create"@, "--client-id"@, client_id, "--display-name"@, display_name]
        + redirect_pairs(redirect_uris) + flag(user_read_write, "--user-read-write"@) + flag(
        group_read_write,
        "--group-read-write"@,
    ) + option_pair("--name"@, name)
}

/// `aad-tool application create`. Unprivileged.
pub fn aad_tool_application_create(
    client_id: String,
    display_name: String,
    redirect_uris: Vec<String>,
    user_read_write: bool,
    group_read_write: bool,
    name: Option<String>,
) -> (c: AadToolCommand)
    ensures
        argv(c) == application_create_argv(
            client_id@,
            display_name@,
            views(redirect_uris@),
            user_read_write,
            group_read_write,
            opt_view(name),
        ),
        !c.privileged,
{
    let mut args = words_of_lits("application", "create");
    push_pair(&mut args, "--client-id", client_id);
    push_pair(&mut args, "--display-name", display_name);
    let ghost head = views(args@);
    let mut i: usize = 0;
    while i < redirect_uris.len()
        invariant
            i <= redirect_uris.len(),
            views(args@) == head + redirect_pairs(views(redirect_uris@).take(i as int)),
        decreases redirect_uris.len() - i,
    {
        let ghost before = views(args@);
        push_pair(&mut args, "--redirect-uri", redirect_uris[i].clone());
        proof {
            let t = views(redirect_uris@).take(i + 1);
            assert(t.drop_last() =~= views(redirect_uris@).take(i as int));
            assert(t.last() == redirect_uris@[i as int]@);
            assert(views(args@) =~= head + redirect_pairs(t));
        }
        i = i + 1;
    }
    assert(views(redirect_uris@).take(redirect_uris.len() as int) =~= views(redirect_uris@));
    push_flag(&mut args, user_read_write, "--user-read-write");
    push_flag(&mut args, group_read_write, "--group-read-write");
    push_option(&mut args, "--name", name);
    AadToolCommand { args, privileged: false }
}

/// The arguments of a schema-extension action (`list-schema-extensions` or
/// `add-schema-extensions`).
pub open spec fn schema_argv(
    action: Seq<char>,
    client_id: Seq<char>,
    schema_app_object_id: Seq<char>,
    name: Option<Seq<char>>,
) -> Seq<Seq<char>> {
    seq![
        "application"@,
        action,
        "--client-id"@,
        client_id,
        "--schema-app-object-id"@,
        schema_app_object_id,
    ] + option_pair("--name"@, name)
}

fn schema_command(
    action: &str,
    client_id: String,
    schema_app_object_id: String,
    name: Option<String>,
) -> (c: AadToolCommand)
    ensures
        argv(c) == schema_argv(action@, client_id@, schema_app_object_id@, opt_view(name)),
        !c.privileged,
{
    let mut args = words_of_lits("application", action);
    push_pair(&mut args, "--client-id", client_id);
    push_pair(&mut args, "--schema-app-object-id", schema_app_object_id);
    push_option(&mut args, "--name", name);
    AadToolCommand { args, privileged: false }
}

/// `aad-tool application list-schema-extensions`. Unprivileged.
pub fn aad_tool_application_list_schema(
    client_id: String,
    schema_app_object_id: String,
    name: Option<String>,
) -> (c: AadToolCommand)
    ensures
        argv(c) == schema_argv(
            "list-schema-extensions"@,
            client_id@,
            schema_app_object_id@,
            opt_view(name),
        ),
        !c.privileged,
{
    schema_command("list-schema-extensions", client_id, schema_app_object_id, name)
}

/// `aad-tool application add-schema-extensions`. Unprivileged.
pub fn aad_tool_application_add_schema(
    client_id: String,
    schema_app_object_id: String,
    name: Option<String>,
) -> (c: AadToolCommand)
    ensures
        argv(c) == schema_argv(
            "add-schema-extensions"@,
            client_id@,
            schema_app_object_id@,
            opt_view(name),
        ),
        !c.privileged,
{
    schema_command("add-schema-extensions", client_id, schema_app_object_id, name)
}

/// The arguments that set the POSIX attributes of a user.
pub open spec fn user_set_posix_argv(
    schema_client_id: Seq<char>,
    user_id: Seq<char>,
    uid: Option<u32>,
    gid: Option<u32>,
    home: Option<Seq<char>>,
    shell: Option<Seq<char>>,
    gecos: Option<Seq<char>>,
    name: Option<Seq<char>>,
) -> Seq<Seq<char>> {
    seq![
        "user"@,
        "set-posix-attrs"@,
        "--schema-client-id"@,
        schema_client_id,
        "--user-id"@,
        user_id,
    ] + number_pair("--uid"@, uid) + number_pair("--gid"@, gid) + option_pair("--home"@, home)
        + option_pair("--shell"@, shell) + option_pair("--gecos"@, gecos) + option_pair(
        "--name"@,
        name,
    )
}

/// `aad-tool user set-posix-attrs`. Unprivileged.
pub fn aad_tool_user_set_posix(
    schema_client_id: String,
    user_id: String,
    uid: Option<u32>,
    gid: Option<u32>,
    home: Option<String>,
    shell: Option<String>,
    gecos: Option<String>,
    name: Option<String>,
) -> (c: AadToolCommand)
    ensures
        argv(c) == user_set_posix_argv(
            schema_client_id@,
            user_id@,
            uid,
            gid,
            opt_view(home),
            opt_view(shell),
            opt_view(gecos),
            opt_view(name),
        ),
        !c.privileged,
{
    let mut args = words_of_lits("user", "set-posix-attrs");
    push_pair(&mut args, "--schema-client-id", schema_client_id);
    push_pair(&mut args, "--user-id", user_id);
    push_number(&mut args, "--uid", uid);
    push_number(&mut args, "--gid", gid);
    push_option(&mut args, "--home", home);
    push_option(&mut args, "--shell", shell);
    push_option(&mut args, "--gecos", gecos);
    push_option(&mut args, "--name", name);
    AadToolCommand { args, privileged: false }
}

/// The arguments that set the GID of a group.
pub open spec fn group_set_posix_argv(
    schema_client_id: Seq<char>,
    group_id: Seq<char>,
    gid: u32,
    name: Option<Seq<char>>,
) -> Seq<Seq<char>> {
    seq![
        "group"@,
        "set-posix-attrs"@,
        "--schema-client-id"@,
        schema_client_id,
        "--group-id"@,
        group_id,
        "--gid"@,
        decimal(gid as nat),
    ] + option_pair("--name"@, name)
}

/// `aad-tool group set-posix-attrs`. Unprivileged.
pub fn aad_tool_group_set_posix(
    schema_client_id: String,
    group_id: String,
    gid: u32,
    name: Option<String>,
) -> (c: AadToolCommand)
    ensures
        argv(c) == group_set_posix_argv(schema_client_id@, group_id@, gid, opt_view(name)),
        !c.privileged,
{
    let mut args = words_of_lits("group", "set-posix-attrs");
    push_pair(&mut args, "--schema-client-id", schema_client_id);
    push_pair(&mut args, "--group-id", group_id);
    push_pair(&mut args, "--gid", decimal_string(gid as u64));
    push_option(&mut args, "--name", name);
    AadToolCommand { args, privileged: false }
}

/// `aad-tool idmap user-add`: a fixed UID and primary GID for an account.
/// Privileged.
pub fn aad_tool_idmap_user_add(account_name: String, uid: u32, gid: u32) -> (c: AadToolCommand)
    ensures
        argv(c) == seq![
            "idmap"@,
            "user-add"@,
            "--name"@,
            account_name@,
            "--uid"@,
            decimal(uid as nat),
            "--gid"@,
            decimal(gid as nat),
        ],
        c.privileged,
{
    let mut args = words_of_lits("idmap", "user-add");
    push_pair(&mut args, "--name", account_name);
    push_pair(&mut args, "--uid", decimal_string(uid as u64));
    push_pair(&mut args, "--gid", decimal_string(gid as u64));
    assert(views(args@) =~= seq![
        "idmap"@,
        "user-add"@,
        "--name"@,
        account_name@,
        "--uid"@,
        decimal(uid as nat),
        "--gid"@,
        decimal(gid as nat),
    ]);
    AadToolCommand { args, privileged: true }
}

/// `aad-tool idmap group-add`: a fixed GID for a group. Privileged.
pub fn aad_tool_idmap_group_add(object_id: String, gid: u32) -> (c: AadToolCommand)
    ensures
        argv(c) == seq![
            "idmap"@,
            "group-add"@,
            "--object_id"@,
            object_id@,
            "--gid"@,
            decimal(gid as nat),
        ],
        c.privileged,
{
    let mut args = words_of_lits("idmap", "group-add");
    push_pair(&mut args, "--object_id", object_id);
    push_pair(&mut args, "--gid", decimal_string(gid as u64));
    assert(views(args@) =~= seq![
        "idmap"@,
        "group-add"@,
        "--object_id"@,
        object_id@,
        "--gid"@,
        decimal(gid as nat),
    ]);
    AadToolCommand { args, privileged: true }
}

/// `aad-tool idmap clear`: drops every static mapping. Privileged.
pub fn aad_tool_idmap_clear() -> (c: AadToolCommand)
    ensures
        argv(c) == seq!["idmap"@, "clear"@],
        c.privileged,
{
    AadToolCommand { args: words_of_lits("idmap", "clear"), privileged: true }
}

/// `aad-tool cred list` for a domain. Privileged.
pub fn aad_tool_cred_list(domain: String) -> (c: AadToolCommand)
    ensures
        argv(c) == seq!["cred"@, "list"@, "--domain"@, domain@],
        c.privileged,
{
    let mut args = words_of_lits("cred", "list");
    push_pair(&mut args, "--domain", domain);
    assert(views(args@) =~= seq!["cred"@, "list"@, "--domain"@, domain@]);
    AadToolCommand { args, privileged: true }
}

/// `aad-tool cred secret`: stores a client secret. Privileged.
pub fn aad_tool_cred_secret(client_id: String, domain: String, secret: String) -> (c: AadToolCommand)
    ensures
        argv(c) == seq![
            "cred"@,
            "secret"@,
            "--client-id"@,
            client_id@,
            "--domain"@,
            domain@,
            "--secret"@,
            secret@,
        ],
        c.privileged,
{
    let mut args = words_of_lits("cred", "secret");
    push_pair(&mut args, "--client-id", client_id);
    push_pair(&mut args, "--domain", domain);
    push_pair(&mut args, "--secret", secret);
    assert(views(args@) =~= seq![
        "cred"@,
        "secret"@,
        "--client-id"@,
        client_id@,
        "--domain"@,
        domain@,
        "--secret"@,
        secret@,
    ]);
    AadToolCommand { args, privileged: true }
}

/// `aad-tool cred cert`: makes a key pair and a certificate. Privileged.
pub fn aad_tool_cred_cert(client_id: String, domain: String, valid_days: u32, cert_out: String) -> (c:
    AadToolCommand)
    ensures
        argv(c) == seq![
            "cred"@,
            "cert"@,
            "--client-id"@,
            client_id@,
            "--domain"@,
            domain@,
            "--valid-days"@,
            decimal(valid_days as nat),
            "--cert-out"@,
            cert_out@,
        ],
        c.privileged,
{
    let mut args = words_of_lits("cred", "cert");
    push_pair(&mut args, "--client-id", client_id);
    push_pair(&mut args, "--domain", domain);
    push_pair(&mut args, "--valid-days", decimal_string(valid_days as u64));
    push_pair(&mut args, "--cert-out", cert_out);
    assert(views(args@) =~= seq![
        "cred"@,
        "cert"@,
        "--client-id"@,
        client_id@,
        "--domain"@,
        domain@,
        "--valid-days"@,
        decimal(valid_days as nat),
        "--cert-out"@,
        cert_out@,
    ]);
    AadToolCommand { args, privileged: true }
}

/// The arguments that delete stored credentials.
pub open spec fn cred_delete_argv(domain: Seq<char>, secret_only: bool, cert_only: bool) -> Seq<
    Seq<char>,
> {
    seq!["cred"@, "delete"@, "--domain"@, domain] + flag(secret_only, "--secret"@) + flag(
        cert_only,
        "--cert"@,
    )
}

/// Deleting credentials names the domain, then only the chosen switches:
/// `--secret` is among the rest exactly when the secret alone is to go, and
/// `--cert` exactly when the certificate alone is, each whatever the other
/// switch is.
pub proof fn lemma_cred_delete_switches(domain: Seq<char>, secret_only: bool, cert_only: bool)
    ensures
        ({
            let a = cred_delete_argv(domain, secret_only, cert_only);
            &&& a.len() == 4 + (if secret_only { 1int } else { 0 }) + (if cert_only { 1int } else { 0 })
            &&& a.take(4) == seq!["cred"@, "delete"@, "--domain"@, domain]
            &&& (exists|i: int| 4 <= i < a.len() && #[trigger] a[i] == "--secret"@) <==> secret_only
            &&& (exists|i: int| 4 <= i < a.len() && #[trigger] a[i] == "--cert"@) <==> cert_only
        }),
{
    reveal_strlit("--secret");
    reveal_strlit("--cert");
    let a = cred_delete_argv(domain, secret_only, cert_only);
    assert(a.take(4) =~= seq!["cred"@, "delete"@, "--domain"@, domain]);
    assert("--secret"@.len() == 8 && "--cert"@.len() == 6);
    if secret_only {
        assert(a[4] == "--secret"@);
    }
    if cert_only {
        assert(a[a.len() - 1] == "--cert"@);
    }
    assert forall|i: int| 4 <= i < a.len() implies (a[i] == "--secret"@ ==> secret_only) && (a[i]
        == "--cert"@ ==> cert_only) by {
        if secret_only && i == 4 {
            assert(a[i] == "--secret"@);
        } else {
            assert(a[i] == "--cert"@);
        }
    }
}

/// `aad-tool cred delete`; with neither switch every credential of the
/// domain goes. Privileged.
pub fn aad_tool_cred_delete(domain: String, secret_only: bool, cert_only: bool) -> (c:
    AadToolCommand)
    ensures
        argv(c) == cred_delete_argv(domain@, secret_only, cert_only),
        c.privileged,
{
    let mut args = words_of_lits("cred", "delete");
    push_pair(&mut args, "--domain", domain);
    push_flag(&mut args, secret_only, "--secret");
    push_flag(&mut args, cert_only, "--cert");
    AadToolCommand { args, privileged: true }
}

/// The arguments that configure PAM.
pub open spec fn configure_pam_argv(
    really: bool,
    auth_file: Option<Seq<char>>,
    account_file: Option<Seq<char>>,
    session_file: Option<Seq<char>>,
    password_file: Option<Seq<char>>,
) -> Seq<Seq<char>> {
    seq!["configure-pam"@] + flag(really, "--really"@) + option_pair("--auth-file"@, auth_file)
        + option_pair("--account-file"@, account_file) + option_pair(
        "--session-file"@,
        session_file,
    ) + option_pair("--password-file"@, password_file)
}

/// `aad-tool configure-pam`; without `--really` it is a dry run.
/// Privileged.
pub fn aad_tool_configure_pam(
    really: bool,
    auth_file: Option<String>,
    account_file: Option<String>,
    session_file: Option<String>,
    password_file: Option<String>,
) -> (c: AadToolCommand)
    ensures
        argv(c) == configure_pam_argv(
            really,
            opt_view(auth_file),
            opt_view(account_file),
            opt_view(session_file),
            opt_view(password_file),
        ),
        c.privileged,
{
    let mut args = single("configure-pam");
    push_flag(&mut args, really, "--really");
    push_option(&mut args, "--auth-file", auth_file);
    push_option(&mut args, "--account-file", account_file);
    push_option(&mut args, "--session-file", session_file);
    push_option(&mut args, "--password-file", password_file);
    AadToolCommand { args, privileged: true }
}

/// `aad-tool offline-breakglass`, with an optional time to live. Privileged.
pub fn aad_tool_offline_breakglass(ttl: Option<String>) -> (c: AadToolCommand)
    ensures
        argv(c) == seq!["offline-breakglass"@] + option_pair("--ttl"@, opt_view(ttl)),
        c.privileged,
{
    let mut args = single("offline-breakglass");
    push_option(&mut args, "--ttl", ttl);
    AadToolCommand { args, privileged: true }
}

} // verus!
