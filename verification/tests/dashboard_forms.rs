use admin_portal::forms::{
    application_create_form, application_list_form, auth_test_form, breakglass_form,
    command_result, cred_cert_form, cred_delete_form, cred_list_form, cred_secret_form,
    default_cert_out, default_cert_valid_days, default_shell, enumerate_form, groups_form,
    idmap_group_form, idmap_user_form, pam_form, parse_opt_u32, redirect_uri_list, schema_form,
    users_form, SchemaAction,
};

fn strings(v: &[&str]) -> Vec<String> {
    v.iter().map(|s| s.to_string()).collect()
}

#[test]
fn optional_numbers_are_read_or_named_in_the_error() {
    assert_eq!(parse_opt_u32("  ", "UID"), Ok(None));
    assert_eq!(parse_opt_u32(" 1001 ", "UID"), Ok(Some(1001)));
    assert_eq!(parse_opt_u32("abc", "GID"), Err("Invalid GID: must be a positive integer".to_string()));
    assert_eq!(parse_opt_u32("-5", "UID"), Err("Invalid UID: must be a positive integer".to_string()));
}

#[test]
fn users_form_checks_in_order() {
    let e = users_form(" ", "u", "", "", "".into(), "".into(), "".into(), "".into()).err();
    assert_eq!(e.as_deref(), Some("Schema Client ID and User ID are required"));
    let e = users_form("s", "u", "x", "y", "".into(), "".into(), "".into(), "".into()).err();
    assert_eq!(e.as_deref(), Some("Invalid UID: must be a positive integer"));
    let e = users_form("s", "u", "1", "y", "".into(), "".into(), "".into(), "".into()).err();
    assert_eq!(e.as_deref(), Some("Invalid GID: must be a positive integer"));
    let q = users_form(
        " scid ",
        " user@d ",
        " 1001",
        "",
        " /home/u ".into(),
        default_shell().into(),
        "  ".into(),
        "me@d".into(),
    )
    .ok()
    .unwrap();
    assert_eq!(q.schema_client_id, "scid");
    assert_eq!(q.user_id, "user@d");
    assert_eq!((q.uid, q.gid), (Some(1001), None));
    assert_eq!(q.home.as_deref(), Some("/home/u"));
    assert_eq!(q.shell.as_deref(), Some("/bin/bash"));
    assert_eq!(q.gecos, None);
    let c = q.into_command();
    assert_eq!(
        c.args,
        strings(&[
            "user", "set-posix-attrs", "--schema-client-id", "scid", "--user-id", "user@d",
            "--uid", "1001", "--home", "/home/u", "--shell", "/bin/bash", "--name", "me@d",
        ])
    );
}

#[test]
fn form_defaults() {
    assert_eq!(default_shell(), "/bin/bash");
    assert_eq!(default_cert_valid_days(), "365");
    assert_eq!(default_cert_out(), "/tmp/himmelblau-cert.pem");
}

#[test]
fn groups_form_requires_every_field() {
    assert_eq!(
        groups_form("s", "g", " ", "".into()).err().as_deref(),
        Some("Schema Client ID, Group ID, and GID are all required")
    );
    assert_eq!(groups_form("s", "g", "1.5", "".into()).err().as_deref(), Some("GID must be a positive integer"));
    let c = groups_form(" s", "g ", "+0042", " ".into()).ok().unwrap().into_command();
    assert_eq!(
        c.args,
        strings(&["group", "set-posix-attrs", "--schema-client-id", "s", "--group-id", "g", "--gid", "42"])
    );
}

#[test]
fn application_forms() {
    assert_eq!(application_list_form("  ", "".into()).err().as_deref(), Some("Client ID is required"));
    let c = application_list_form(" cid ", " me ".into()).ok().unwrap().into_command();
    assert_eq!(c.args, strings(&["application", "list", "--client-id", "cid", "--name", "me"]));

    assert_eq!(
        application_create_form("cid", " ", "", false, false, "".into()).err().as_deref(),
        Some("Client ID and Display Name are required")
    );
    let q = application_create_form(
        "cid",
        " App ",
        "https://a/cb\r\n\n   \n  https://b/cb  \n",
        false,
        true,
        "".into(),
    )
    .ok()
    .unwrap();
    assert_eq!(q.redirect_uris, strings(&["https://a/cb", "https://b/cb"]));
    assert_eq!(
        q.into_command().args,
        strings(&[
            "application", "create", "--client-id", "cid", "--display-name", "App",
            "--redirect-uri", "https://a/cb", "--redirect-uri", "https://b/cb", "--group-read-write",
        ])
    );

    assert_eq!(
        schema_form(SchemaAction::Add, "cid", "", "".into()).err().as_deref(),
        Some("Client ID and Schema App Object ID are required")
    );
    let c = schema_form(SchemaAction::List, "cid", "oid", "".into()).ok().unwrap().into_command();
    assert_eq!(
        c.args,
        strings(&["application", "list-schema-extensions", "--client-id", "cid", "--schema-app-object-id", "oid"])
    );
}

#[test]
fn redirect_uris_keep_only_filled_lines() {
    assert_eq!(redirect_uri_list(""), Vec::<String>::new());
    assert_eq!(redirect_uri_list("\n\n"), Vec::<String>::new());
    assert_eq!(redirect_uri_list(" a \nb"), strings(&["a", "b"]));
}

#[test]
fn cache_breakglass_and_pam_forms() {
    assert_eq!(enumerate_form("  ".into(), " u ".into()).args, strings(&["enumerate", "--name", "u"]));
    assert_eq!(breakglass_form("  ").args, strings(&["offline-breakglass"]));
    assert_eq!(breakglass_form(" 2h ").args, strings(&["offline-breakglass", "--ttl", "2h"]));
    assert_eq!(breakglass_form("0").args, strings(&["offline-breakglass", "--ttl", "0"]));
    let c = pam_form(false, " /etc/pam.d/common-auth ".into(), "".into(), " ".into(), "".into());
    assert_eq!(c.args, strings(&["configure-pam", "--auth-file", "/etc/pam.d/common-auth"]));
    assert!(c.privileged);
    assert!(pam_form(true, "".into(), "".into(), "".into(), "".into()).args.contains(&"--really".to_string()));
}

#[test]
fn auth_test_form_keeps_the_credential_as_typed() {
    assert_eq!(auth_test_form("  ", "pw".into()).err().as_deref(), Some("Account name is required"));
    assert_eq!(auth_test_form("u", String::new()).err().as_deref(), Some("Password or PIN is required"));
    let q = auth_test_form(" u@d ", " 1234 ".into()).ok().unwrap();
    assert_eq!((q.name.as_str(), q.password.as_str()), ("u@d", " 1234 "));
}

#[test]
fn credential_forms() {
    assert_eq!(cred_list_form(" ").err().as_deref(), Some("Domain is required"));
    assert_eq!(cred_list_form(" d ").ok().unwrap().args, strings(&["cred", "list", "--domain", "d"]));
    assert_eq!(
        cred_secret_form("d", "c", " ").err().as_deref(),
        Some("Domain, Client ID, and Secret are all required")
    );
    assert_eq!(
        cred_secret_form("d", " c", " s ").ok().unwrap().args,
        strings(&["cred", "secret", "--client-id", "c", "--domain", "d", "--secret", "s"])
    );
    assert_eq!(cred_cert_form("d", "c", "", "/o").err().as_deref(), Some("All fields are required"));
    assert_eq!(
        cred_cert_form("d", "c", "a year", "/o").err().as_deref(),
        Some("Valid days must be a positive integer")
    );
    assert_eq!(
        cred_cert_form("d", "c", default_cert_valid_days(), default_cert_out()).ok().unwrap().args,
        strings(&[
            "cred", "cert", "--client-id", "c", "--domain", "d", "--valid-days", "365", "--cert-out",
            "/tmp/himmelblau-cert.pem",
        ])
    );
    assert_eq!(cred_delete_form("", true, false).err().as_deref(), Some("Domain is required"));
    assert_eq!(
        cred_delete_form("d", true, false).ok().unwrap().args,
        strings(&["cred", "delete", "--domain", "d", "--secret"])
    );
}

#[test]
fn idmap_forms() {
    assert_eq!(idmap_user_form("u", "1", " ").err().as_deref(), Some("Name, UID, and GID are all required"));
    assert_eq!(idmap_user_form("u", "x", "1").err().as_deref(), Some("UID must be a positive integer"));
    assert_eq!(idmap_user_form("u", "1", "-1").err().as_deref(), Some("GID must be a positive integer"));
    assert_eq!(
        idmap_user_form(" u@d ", "007", "1001").ok().unwrap().args,
        strings(&["idmap", "user-add", "--name", "u@d", "--uid", "7", "--gid", "1001"])
    );
    assert_eq!(idmap_group_form("", "1").err().as_deref(), Some("Object ID and GID are required"));
    assert_eq!(idmap_group_form("o", "4294967296").err().as_deref(), Some("GID must be a positive integer"));
    assert_eq!(
        idmap_group_form("o", "9").ok().unwrap().args,
        strings(&["idmap", "group-add", "--object_id", "o", "--gid", "9"])
    );
}

#[test]
fn command_answers_are_shown() {
    assert_eq!(command_result(Ok(Some("ok".into()))), Ok("ok".to_string()));
    assert_eq!(command_result(Ok(None)), Ok(String::new()));
    assert_eq!(command_result(Err(Some("bad".into()))), Err("bad".to_string()));
    assert_eq!(command_result(Err(None)), Err("Command failed".to_string()));
}
