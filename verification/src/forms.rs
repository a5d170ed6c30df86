//! The checks that the dashboard forms make before they send a command,
//! and the request that each form sends.

use vstd::prelude::*;
use crate::commands::{
    aad_tool_application_add_schema, aad_tool_application_create, aad_tool_application_list,
    aad_tool_application_list_schema, aad_tool_cred_cert, aad_tool_cred_list, aad_tool_cred_secret,
    aad_tool_enumerate, aad_tool_group_set_posix, aad_tool_idmap_group_add,
    aad_tool_idmap_user_add, aad_tool_user_set_posix, aad_tool_configure_pam,
    aad_tool_offline_breakglass, aad_tool_cred_delete, cred_delete_argv, application_create_argv, argv, enumerate_argv, group_set_posix_argv,
    schema_argv, user_set_posix_argv, application_list_argv, configure_pam_argv, option_pair,
    AadToolCommand,
};
use crate::text::{
    decimal, lemma_trim_idempotent, lemma_views_push, lines, lines_of, opt_text, opt_view, parse_u32, parse_u32_spec, to_opt,
    trim, trim_ws, views,
};

verus! {

/// The login shell that the user form starts with.
pub fn default_shell() -> (r: &'static str)
    ensures
        r@ == "/bin/bash"@,
{
    "/bin/bash"
}

/// The validity, in days, that the certificate form starts with.
pub fn default_cert_valid_days() -> (r: &'static str)
    ensures
        r@ == "365"@,
{
    "365"
}

/// The output file that the certificate form starts with.
pub fn default_cert_out() -> (r: &'static str)
    ensures
        r@ == "/tmp/himmelblau-cert.pem"@,
{
    "/tmp/himmelblau-cert.pem"
}

/// A field that holds something besides white space.
pub open spec fn filled(s: Seq<char>) -> bool {
    trim_ws(s).len() > 0
}

/// An optional number field: nothing when blank, else the number, else the
/// error that names the field.
pub open spec fn opt_number_field(s: Seq<char>, label: Seq<char>) -> Result<Option<u32>, Seq<char>> {
    let t = trim_ws(s);
    if t.len() == 0 {
        Ok(None)
    } else {
        match parse_u32_spec(t) {
            Some(v) => Ok(Some(v)),
            None => Err("Invalid "@ + label + ": must be a positive integer"@),
        }
    }
}

/// The view of a result whose error is a string.
pub open spec fn err_view<T>(r: Result<T, String>) -> Result<T, Seq<char>> {
    match r {
        Ok(v) => Ok(v),
        Err(e) => Err(e@),
    }
}

/// Reads an optional number field.
pub fn parse_opt_u32(s: &str, label: &str) -> (r: Result<Option<u32>, String>)
    ensures
        err_view(r) == opt_number_field(s@, label@),
{
    let t = trim(s);
    if t.as_str().is_empty() {
        return Ok(None);
    }
    match parse_u32(t.as_str()) {
        Some(v) => Ok(Some(v)),
        None => Err(String::from_str("Invalid ").concat(label).concat(": must be a positive integer")),
    }
}

/// A required number field, already known to be filled.
pub open spec fn number_field(s: Seq<char>) -> Option<u32> {
    parse_u32_spec(trim_ws(s))
}

/// What a view shows of a command's answer: the text, or the error, which
/// defaults to a generic one when it is not text.
pub fn command_result(reply: Result<Option<String>, Option<String>>) -> (r: Result<String, String>)
    ensures
        match reply {
            Ok(Some(t)) => r matches Ok(u) && u@ == t@,
            Ok(None) => r matches Ok(u) && u@.len() == 0,
            Err(Some(e)) => r matches Err(u) && u@ == e@,
            Err(None) => r matches Err(u) && u@ == "Command failed"@,
        },
{
    match reply {
        Ok(Some(t)) => Ok(t),
        Ok(None) => Ok(String::new()),
        Err(Some(e)) => Err(e),
        Err(None) => Err(String::from_str("Command failed")),
    }
}

// ── Users ────────────────────────────────────────────────────────────────────

/// The POSIX attributes to set on a user.
pub struct UserPosixRequest {
    pub schema_client_id: String,
    pub user_id: String,
    pub uid: Option<u32>,
    pub gid: Option<u32>,
    pub home: Option<String>,
    pub shell: Option<String>,
    pub gecos: Option<String>,
    pub name: Option<String>,
}

/// The error of the user form, if any, in the order the form checks.
pub open spec fn users_form_error(
    schema_client_id: Seq<char>,
    user_id: Seq<char>,
    uid: Seq<char>,
    gid: Seq<char>,
) -> Option<Seq<char>> {
    if !filled(schema_client_id) || !filled(user_id) {
        Some("Schema Client ID and User ID are required"@)
    } else if opt_number_field(uid, "UID"@) is Err {
        Some(opt_number_field(uid, "UID"@)->Err_0)
    } else if opt_number_field(gid, "GID"@) is Err {
        Some(opt_number_field(gid, "GID"@)->Err_0)
    } else {
        None
    }
}

/// The user form needs both ids: when either is blank after trimming, the
/// form's error is the one that says so, whatever the number fields hold;
/// a form without error has both ids.
pub proof fn lemma_users_form_needs_ids(
    schema_client_id: Seq<char>,
    user_id: Seq<char>,
    uid: Seq<char>,
    gid: Seq<char>,
)
    ensures
        trim_ws(schema_client_id).len() == 0 || trim_ws(user_id).len() == 0 ==> users_form_error(
            schema_client_id,
            user_id,
            uid,
            gid,
        ) == Some("Schema Client ID and User ID are required"@),
        users_form_error(schema_client_id, user_id, uid, gid) is None ==> trim_ws(
            schema_client_id,
        ).len() > 0 && trim_ws(user_id).len() > 0,
{
}

/// Checks the user form; the text fields are sent trimmed, the optional
/// ones only when not blank.
pub fn users_form(
    schema_client_id: &str,
    user_id: &str,
    uid: &str,
    gid: &str,
    home: String,
    shell: String,
    gecos: String,
    name: String,
) -> (r: Result<UserPosixRequest, String>)
    ensures
        r is Err <==> users_form_error(schema_client_id@, user_id@, uid@, gid@) is Some,
        r matches Err(e) ==> Some(e@) == users_form_error(schema_client_id@, user_id@, uid@, gid@),
        trim_ws(schema_client_id@).len() == 0 || trim_ws(user_id@).len() == 0 ==> (r matches Err(e)
            && e@ == "Schema Client ID and User ID are required"@),
        r matches Ok(q) ==> q.schema_client_id@.len() > 0 && q.user_id@.len() > 0,
        r matches Ok(q) ==> {
            &&& q.schema_client_id@ == trim_ws(schema_client_id@)
            &&& q.user_id@ == trim_ws(user_id@)
            &&& opt_number_field(uid@, "UID"@) == Ok::<Option<u32>, Seq<char>>(q.uid)
            &&& opt_number_field(gid@, "GID"@) == Ok::<Option<u32>, Seq<char>>(q.gid)
            &&& opt_view(q.home) == opt_text(home@)
            &&& opt_view(q.shell) == opt_text(shell@)
            &&& opt_view(q.gecos) == opt_text(gecos@)
            &&& opt_view(q.name) == opt_text(name@)
        },
{
    let scid = trim(schema_client_id);
    let uid_val = trim(user_id);
    if scid.as_str().is_empty() || uid_val.as_str().is_empty() {
        return Err(String::from_str("Schema Client ID and User ID are required"));
    }
    let uid_num = match parse_opt_u32(uid, "UID") {
        Ok(v) => v,
        Err(e) => {
            return Err(e);
        },
    };
    let gid_num = match parse_opt_u32(gid, "GID") {
        Ok(v) => v,
        Err(e) => {
            return Err(e);
        },
    };
    Ok(
        UserPosixRequest {
            schema_client_id: scid,
            user_id: uid_val,
            uid: uid_num,
            gid: gid_num,
            home: to_opt(home),
            shell: to_opt(shell),
            gecos: to_opt(gecos),
            name: to_opt(name),
        },
    )
}

impl UserPosixRequest {
    /// The command that the request runs.
    pub fn into_command(self) -> (c: AadToolCommand)
        ensures
            argv(c) == user_set_posix_argv(
                self.schema_client_id@,
                self.user_id@,
                self.uid,
                self.gid,
                opt_view(self.home),
                opt_view(self.shell),
                opt_view(self.gecos),
                opt_view(self.name),
            ),
            !c.privileged,
    {
        aad_tool_user_set_posix(
            self.schema_client_id,
            self.user_id,
            self.uid,
            self.gid,
            self.home,
            self.shell,
            self.gecos,
            self.name,
        )
    }
}

// ── Groups ───────────────────────────────────────────────────────────────────

/// The GID to set on a group.
pub struct GroupPosixRequest {
    pub schema_client_id: String,
    pub group_id: String,
    pub gid: u32,
    pub name: Option<String>,
}

/// The error of the group form, if any.
pub open spec fn groups_form_error(schema_client_id: Seq<char>, group_id: Seq<char>, gid: Seq<char>) -> Option<
    Seq<char>,
> {
    if !filled(schema_client_id) || !filled(group_id) || !filled(gid) {
        Some("Schema Client ID, Group ID, and GID are all required"@)
    } else if number_field(gid) is None {
        Some("GID must be a positive integer"@)
    } else {
        None
    }
}

/// Checks the group form.
pub fn groups_form(schema_client_id: &str, group_id: &str, gid: &str, name: String) -> (r: Result<
    GroupPosixRequest,
    String,
>)
    ensures
        r is Err <==> groups_form_error(schema_client_id@, group_id@, gid@) is Some,
        r matches Err(e) ==> Some(e@) == groups_form_error(schema_client_id@, group_id@, gid@),
        r matches Ok(q) ==> q.schema_client_id@.len() > 0 && q.group_id@.len() > 0,
        r matches Ok(q) ==> {
            &&& q.schema_client_id@ == trim_ws(schema_client_id@)
            &&& q.group_id@ == trim_ws(group_id@)
            &&& number_field(gid@) == Some(q.gid)
            &&& opt_view(q.name) == opt_text(name@)
        },
{
    let scid = trim(schema_client_id);
    let gid_obj = trim(group_id);
    let gid_str = trim(gid);
    if scid.as_str().is_empty() || gid_obj.as_str().is_empty() || gid_str.as_str().is_empty() {
        return Err(String::from_str("Schema Client ID, Group ID, and GID are all required"));
    }
    match parse_u32(gid_str.as_str()) {
        Some(v) => Ok(
            GroupPosixRequest { schema_client_id: scid, group_id: gid_obj, gid: v, name: to_opt(name) },
        ),
        None => Err(String::from_str("GID must be a positive integer")),
    }
}

impl GroupPosixRequest {
    /// The command that the request runs.
    pub fn into_command(self) -> (c: AadToolCommand)
        ensures
            argv(c) == group_set_posix_argv(
                self.schema_client_id@,
                self.group_id@,
                self.gid,
                opt_view(self.name),
            ),
            !c.privileged,
    {
        aad_tool_group_set_posix(self.schema_client_id, self.group_id, self.gid, self.name)
    }
}

// ── Applications ─────────────────────────────────────────────────────────────

/// Lists application registrations, as a client, maybe as an account.
pub struct ApplicationListRequest {
    pub client_id: String,
    pub name: Option<String>,
}

/// Checks the application list form.
pub fn application_list_form(client_id: &str, name: String) -> (r: Result<
    ApplicationListRequest,
    String,
>)
    ensures
        r is Err <==> !filled(client_id@),
        r matches Err(e) ==> e@ == "Client ID is required"@,
        r matches Ok(q) ==> q.client_id@ == trim_ws(client_id@) && opt_view(q.name) == opt_text(
            name@,
        ),
{
    let cid = trim(client_id);
    if cid.as_str().is_empty() {
        return Err(String::from_str("Client ID is required"));
    }
    Ok(ApplicationListRequest { client_id: cid, name: to_opt(name) })
}

impl ApplicationListRequest {
    /// The command that the request runs.
    pub fn into_command(self) -> (c: AadToolCommand)
        ensures
            argv(c) == application_list_argv(self.client_id@, opt_view(self.name)),
            !c.privileged,
    {
        aad_tool_application_list(self.client_id, self.name)
    }
}

/// The non-blank lines of a text, each trimmed.
pub open spec fn filled_lines(ls: Seq<Seq<char>>) -> Seq<Seq<char>>
    decreases ls.len(),
{
    if ls.len() == 0 {
        seq![]
    } else if trim_ws(ls.last()).len() == 0 {
        filled_lines(ls.drop_last())
    } else {
        filled_lines(ls.drop_last()).push(trim_ws(ls.last()))
    }
}

/// No redirect URI that is sent is blank or padded with white space.
pub proof fn lemma_filled_lines_clean(ls: Seq<Seq<char>>)
    ensures
        forall|i: int|
            0 <= i < filled_lines(ls).len() ==> #[trigger] filled_lines(ls)[i].len() > 0
                && trim_ws(filled_lines(ls)[i]) == filled_lines(ls)[i],
    decreases ls.len(),
{
    if ls.len() > 0 {
        let prev = filled_lines(ls.drop_last());
        lemma_filled_lines_clean(ls.drop_last());
        lemma_trim_idempotent(ls.last());
        let cur = filled_lines(ls);
        assert forall|i: int| 0 <= i < cur.len() implies #[trigger] cur[i].len() > 0 && trim_ws(
            cur[i],
        ) == cur[i] by {
            if i < prev.len() {
                assert(cur[i] == prev[i]);
            }
        }
    }
}

/// The redirect URIs of a text field, one per line: each line trimmed,
/// blank lines left out.
pub fn redirect_uri_list(text: &str) -> (r: Vec<String>)
    ensures
        views(r@) == filled_lines(lines_of(text@)),
{
    let ls = lines(text);
    let mut out: Vec<String> = Vec::new();
    let mut i: usize = 0;
    while i < ls.len()
        invariant
            i <= ls.len(),
            views(ls@) == lines_of(text@),
            views(out@) == filled_lines(views(ls@).take(i as int)),
        decreases ls.len() - i,
    {
        let t = trim(ls[i].as_str());
        let ghost prefix = views(ls@).take(i + 1);
        assert(prefix.drop_last() =~= views(ls@).take(i as int));
        assert(prefix.last() == ls@[i as int]@);
        if !t.as_str().is_empty() {
            let ghost before = out@;
            let ghost tv = t;
            out.push(t);
            proof {
                lemma_views_push(before, tv);
            }
        }
        i = i + 1;
    }
    assert(views(ls@).take(ls.len() as int) =~= views(ls@));
    out
}

/// Registers an application.
pub struct ApplicationCreateRequest {
    pub client_id: String,
    pub display_name: String,
    pub redirect_uris: Vec<String>,
    pub user_read_write: bool,
    pub group_read_write: bool,
    pub name: Option<String>,
}

/// Checks the application creation form.
pub fn application_create_form(
    client_id: &str,
    display_name: &str,
    redirect_uris: &str,
    user_read_write: bool,
    group_read_write: bool,
    name: String,
) -> (r: Result<ApplicationCreateRequest, String>)
    ensures
        r is Err <==> !filled(client_id@) || !filled(display_name@),
        r matches Err(e) ==> e@ == "Client ID and Display Name are required"@,
        r matches Ok(q) ==> {
            &&& q.client_id@ == trim_ws(client_id@)
            &&& q.display_name@ == trim_ws(display_name@)
            &&& views(q.redirect_uris@) == filled_lines(lines_of(redirect_uris@))
            &&& q.user_read_write == user_read_write
            &&& q.group_read_write == group_read_write
            &&& opt_view(q.name) == opt_text(name@)
        },
{
    let cid = trim(client_id);
    let dn = trim(display_name);
    if cid.as_str().is_empty() || dn.as_str().is_empty() {
        return Err(String::from_str("Client ID and Display Name are required"));
    }
    Ok(
        ApplicationCreateRequest {
            client_id: cid,
            display_name: dn,
            redirect_uris: redirect_uri_list(redirect_uris),
            user_read_write,
            group_read_write,
            name: to_opt(name),
        },
    )
}

impl ApplicationCreateRequest {
    /// The command that the request runs.
    pub fn into_command(self) -> (c: AadToolCommand)
        ensures
            argv(c) == application_create_argv(
                self.client_id@,
                self.display_name@,
                views(self.redirect_uris@),
                self.user_read_write,
                self.group_read_write,
                opt_view(self.name),
            ),
            !c.privileged,
    {
        aad_tool_application_create(
            self.client_id,
            self.display_name,
            self.redirect_uris,
            self.user_read_write,
            self.group_read_write,
            self.name,
        )
    }
}

/// The two schema-extension actions.
#[derive(PartialEq, Eq, Structural, Clone, Copy, Debug)]
pub enum SchemaAction {
    List,
    Add,
}

/// A schema-extension action on a schema application.
pub struct SchemaRequest {
    pub action: SchemaAction,
    pub client_id: String,
    pub schema_app_object_id: String,
    pub name: Option<String>,
}

/// Checks the schema forms.
pub fn schema_form(action: SchemaAction, client_id: &str, schema_app_object_id: &str, name: String) -> (r:
    Result<SchemaRequest, String>)
    ensures
        r is Err <==> !filled(client_id@) || !filled(schema_app_object_id@),
        r matches Err(e) ==> e@ == "Client ID and Schema App Object ID are required"@,
        r matches Ok(q) ==> {
            &&& q.action == action
            &&& q.client_id@ == trim_ws(client_id@)
            &&& q.schema_app_object_id@ == trim_ws(schema_app_object_id@)
            &&& opt_view(q.name) == opt_text(name@)
        },
{
    let cid = trim(client_id);
    let oid = trim(schema_app_object_id);
    if cid.as_str().is_empty() || oid.as_str().is_empty() {
        return Err(String::from_str("Client ID and Schema App Object ID are required"));
    }
    Ok(SchemaRequest { action, client_id: cid, schema_app_object_id: oid, name: to_opt(name) })
}

impl SchemaRequest {
    /// The command that the request runs.
    pub fn into_command(self) -> (c: AadToolCommand)
        ensures
            argv(c) == schema_argv(
                match self.action {
                    SchemaAction::List => "list-schema-extensions"@,
                    SchemaAction::Add => "add-schema-extensions"@,
                },
                self.client_id@,
                self.schema_app_object_id@,
                opt_view(self.name),
            ),
            !c.privileged,
    {
        match self.action {
            SchemaAction::List => aad_tool_application_list_schema(
                self.client_id,
                self.schema_app_object_id,
                self.name,
            ),
            SchemaAction::Add => aad_tool_application_add_schema(
                self.client_id,
                self.schema_app_object_id,
                self.name,
            ),
        }
    }
}

// ── Cache, breakglass, PAM ───────────────────────────────────────────────────

/// Enumerates users and groups; both fields optional.
pub fn enumerate_form(client_id: String, name: String) -> (c: AadToolCommand)
    ensures
        argv(c) == enumerate_argv(opt_text(client_id@), opt_text(name@)),
        c.privileged,
{
    aad_tool_enumerate(to_opt(client_id), to_opt(name))
}

/// Enters or leaves breakglass mode; a blank time to live is left out.
pub fn breakglass_form(ttl: &str) -> (c: AadToolCommand)
    ensures
        argv(c) == seq!["offline-breakglass"@] + option_pair("--ttl"@, opt_text(ttl@)),
        c.privileged,
{
    let t = trim(ttl);
    proof {
        crate::text::lemma_trim_idempotent(ttl@);
    }
    aad_tool_offline_breakglass(to_opt(t))
}

/// Configures PAM; blank file fields are left out.
pub fn pam_form(
    really: bool,
    auth_file: String,
    account_file: String,
    session_file: String,
    password_file: String,
) -> (c: AadToolCommand)
    ensures
        argv(c) == configure_pam_argv(
            really,
            opt_text(auth_file@),
            opt_text(account_file@),
            opt_text(session_file@),
            opt_text(password_file@),
        ),
        c.privileged,
{
    aad_tool_configure_pam(
        really,
        to_opt(auth_file),
        to_opt(account_file),
        to_opt(session_file),
        to_opt(password_file),
    )
}

// ── Auth test ────────────────────────────────────────────────────────────────

/// The account and credential of an authentication test.
pub struct AuthTestRequest {
    pub name: String,
    pub password: String,
}

/// Checks the authentication test form; the account is trimmed, the
/// credential is sent as typed.
pub fn auth_test_form(name: &str, password: String) -> (r: Result<AuthTestRequest, String>)
    ensures
        r is Err <==> !filled(name@) || password@.len() == 0,
        r matches Err(e) ==> e@ == if !filled(name@) {
            "Account name is required"@
        } else {
            "Password or PIN is required"@
        },
        r matches Ok(q) ==> q.name@ == trim_ws(name@) && q.password@ == password@,
{
    let n = trim(name);
    if n.as_str().is_empty() {
        return Err(String::from_str("Account name is required"));
    }
    if password.as_str().is_empty() {
        return Err(String::from_str("Password or PIN is required"));
    }
    Ok(AuthTestRequest { name: n, password })
}

// ── Credentials ──────────────────────────────────────────────────────────────

/// Checks the credential list form.
pub fn cred_list_form(domain: &str) -> (r: Result<AadToolCommand, String>)
    ensures
        r is Err <==> !filled(domain@),
        r matches Err(e) ==> e@ == "Domain is required"@,
        r matches Ok(c) ==> argv(c) == seq!["cred"@, "list"@, "--domain"@, trim_ws(domain@)]
            && c.privileged,
{
    let d = trim(domain);
    if d.as_str().is_empty() {
        return Err(String::from_str("Domain is required"));
    }
    Ok(aad_tool_cred_list(d))
}

/// Checks the client secret form; every field is trimmed.
pub fn cred_secret_form(domain: &str, client_id: &str, secret: &str) -> (r: Result<
    AadToolCommand,
    String,
>)
    ensures
        r is Err <==> !filled(domain@) || !filled(client_id@) || !filled(secret@),
        r matches Err(e) ==> e@ == "Domain, Client ID, and Secret are all required"@,
        r matches Ok(c) ==> argv(c) == seq![
            "cred"@,
            "secret"@,
            "--client-id"@,
            trim_ws(client_id@),
            "--domain"@,
            trim_ws(domain@),
            "--secret"@,
            trim_ws(secret@),
        ] && c.privileged,
{
    let d = trim(domain);
    let cid = trim(client_id);
    let sec = trim(secret);
    if d.as_str().is_empty() || cid.as_str().is_empty() || sec.as_str().is_empty() {
        return Err(String::from_str("Domain, Client ID, and Secret are all required"));
    }
    Ok(aad_tool_cred_secret(cid, d, sec))
}

/// Checks the credential deletion form; with neither switch every
/// credential of the domain goes.
pub fn cred_delete_form(domain: &str, secret_only: bool, cert_only: bool) -> (r: Result<
    AadToolCommand,
    String,
>)
    ensures
        r is Err <==> !filled(domain@),
        r matches Err(e) ==> e@ == "Domain is required"@,
        r matches Ok(c) ==> argv(c) == cred_delete_argv(trim_ws(domain@), secret_only, cert_only)
            && c.privileged,
{
    let d = trim(domain);
    if d.as_str().is_empty() {
        return Err(String::from_str("Domain is required"));
    }
    Ok(aad_tool_cred_delete(d, secret_only, cert_only))
}

/// The error of the certificate form, if any.
pub open spec fn cert_form_error(
    domain: Seq<char>,
    client_id: Seq<char>,
    valid_days: Seq<char>,
    cert_out: Seq<char>,
) -> Option<Seq<char>> {
    if !filled(domain) || !filled(client_id) || !filled(valid_days) || !filled(cert_out) {
        Some("All fields are required"@)
    } else if number_field(valid_days) is None {
        Some("Valid days must be a positive integer"@)
    } else {
        None
    }
}

/// Checks the certificate form.
pub fn cred_cert_form(domain: &str, client_id: &str, valid_days: &str, cert_out: &str) -> (r: Result<
    AadToolCommand,
    String,
>)
    ensures
        r is Err <==> cert_form_error(domain@, client_id@, valid_days@, cert_out@) is Some,
        r matches Err(e) ==> Some(e@) == cert_form_error(domain@, client_id@, valid_days@, cert_out@),
        r matches Ok(c) ==> c.privileged && argv(c) == seq![
            "cred"@,
            "cert"@,
            "--client-id"@,
            trim_ws(client_id@),
            "--domain"@,
            trim_ws(domain@),
            "--valid-days"@,
            decimal(number_field(valid_days@)->Some_0 as nat),
            "--cert-out"@,
            trim_ws(cert_out@),
        ],
{
    let d = trim(domain);
    let cid = trim(client_id);
    let days = trim(valid_days);
    let out = trim(cert_out);
    if d.as_str().is_empty() || cid.as_str().is_empty() || days.as_str().is_empty()
        || out.as_str().is_empty() {
        return Err(String::from_str("All fields are required"));
    }
    match parse_u32(days.as_str()) {
        Some(v) => Ok(aad_tool_cred_cert(cid, d, v, out)),
        None => Err(String::from_str("Valid days must be a positive integer")),
    }
}

// ── ID mapping ───────────────────────────────────────────────────────────────

/// The error of the user mapping form, if any.
pub open spec fn idmap_user_form_error(name: Seq<char>, uid: Seq<char>, gid: Seq<char>) -> Option<
    Seq<char>,
> {
    if !filled(name) || !filled(uid) || !filled(gid) {
        Some("Name, UID, and GID are all required"@)
    } else if number_field(uid) is None {
        Some("UID must be a positive integer"@)
    } else if number_field(gid) is None {
        Some("GID must be a positive integer"@)
    } else {
        None
    }
}

/// Checks the user mapping form.
pub fn idmap_user_form(name: &str, uid: &str, gid: &str) -> (r: Result<AadToolCommand, String>)
    ensures
        r is Err <==> idmap_user_form_error(name@, uid@, gid@) is Some,
        r matches Err(e) ==> Some(e@) == idmap_user_form_error(name@, uid@, gid@),
        r matches Ok(c) ==> c.privileged && argv(c) == seq![
            "idmap"@,
            "user-add"@,
            "--name"@,
            trim_ws(name@),
            "--uid"@,
            decimal(number_field(uid@)->Some_0 as nat),
            "--gid"@,
            decimal(number_field(gid@)->Some_0 as nat),
        ],
{
    let nm = trim(name);
    let uid_str = trim(uid);
    let gid_str = trim(gid);
    if nm.as_str().is_empty() || uid_str.as_str().is_empty() || gid_str.as_str().is_empty() {
        return Err(String::from_str("Name, UID, and GID are all required"));
    }
    let u = match parse_u32(uid_str.as_str()) {
        Some(v) => v,
        None => {
            return Err(String::from_str("UID must be a positive integer"));
        },
    };
    let g = match parse_u32(gid_str.as_str()) {
        Some(v) => v,
        None => {
            return Err(String::from_str("GID must be a positive integer"));
        },
    };
    Ok(aad_tool_idmap_user_add(nm, u, g))
}

/// The error of the group mapping form, if any.
pub open spec fn idmap_group_form_error(object_id: Seq<char>, gid: Seq<char>) -> Option<Seq<char>> {
    if !filled(object_id) || !filled(gid) {
        Some("Object ID and GID are required"@)
    } else if number_field(gid) is None {
        Some("GID must be a positive integer"@)
    } else {
        None
    }
}

/// Checks the group mapping form.
pub fn idmap_group_form(object_id: &str, gid: &str) -> (r: Result<AadToolCommand, String>)
    ensures
        r is Err <==> idmap_group_form_error(object_id@, gid@) is Some,
        r matches Err(e) ==> Some(e@) == idmap_group_form_error(object_id@, gid@),
        r matches Ok(c) ==> c.privileged && argv(c) == seq![
            "idmap"@,
            "group-add"@,
            "--object_id"@,
            trim_ws(object_id@),
            "--gid"@,
            decimal(number_field(gid@)->Some_0 as nat),
        ],
{
    let oid = trim(object_id);
    let gid_str = trim(gid);
    if oid.as_str().is_empty() || gid_str.as_str().is_empty() {
        return Err(String::from_str("Object ID and GID are required"));
    }
    match parse_u32(gid_str.as_str()) {
        Some(v) => Ok(aad_tool_idmap_group_add(oid, v)),
        None => Err(String::from_str("GID must be a positive integer")),
    }
}

} // verus!
