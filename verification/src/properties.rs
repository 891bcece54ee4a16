//! The property resolver: the flat key/value configuration of the runtime
//! property file, derived purely from the resource's name.
//!
//! Hostnames, the connector identifier, endpoint ports and paths, and the
//! keystore and vault file paths are constants or fixed templates of the
//! name; nothing is read from the cluster.
use vstd::prelude::*;

use crate::crd::{EDCCluster, ConnectorConfigFragment, name_any_view, CONTROL_PORT, HTTP_PORT,
    MANAGEMENT_PORT, PROTOCOL_PORT, PUBLIC_PORT};
use crate::kvlist::{kv_map, kv_put, kv_sorted};
use crate::strnum::{dec_str, fmt_u16};

verus! {

/// The resolved runtime properties of a cluster named `name`, as a map.
/// Every value is a constant, a fixed template of the name, or a default
/// port rendered in decimal.
pub open spec fn resolved_config_properties(name: Seq<char>) -> Map<Seq<char>, Seq<char>> {
    Map::<Seq<char>, Seq<char>>::empty()
        .insert("edc.hostname"@, name)
        .insert("edc.ids.id"@, "urn:connector:"@ + name)
        .insert("edc.participant.id"@, name)
        .insert(
            "edc.dsp.callback.address"@,
            "http://"@ + name + ":"@ + dec_str(PROTOCOL_PORT as nat) + "/protocol"@,
        )
        .insert("edc.api.auth.key"@, "password"@)
        .insert("web.http.port"@, dec_str(HTTP_PORT as nat))
        .insert("web.http.path"@, "/api"@)
        .insert("web.http.control.port"@, dec_str(CONTROL_PORT as nat))
        .insert("web.http.control.path"@, "/control"@)
        .insert("web.http.management.port"@, dec_str(MANAGEMENT_PORT as nat))
        .insert("web.http.management.path"@, "/management"@)
        .insert("web.http.protocol.port"@, dec_str(PROTOCOL_PORT as nat))
        .insert("web.http.protocol.path"@, "/protocol"@)
        .insert("web.http.public.port"@, dec_str(PUBLIC_PORT as nat))
        .insert("web.http.public.path"@, "/public"@)
        .insert(
            "edc.dataplane.token.validation.endpoint"@,
            "http://"@ + name + ":"@ + dec_str(CONTROL_PORT as nat) + "/control/token"@,
        )
        .insert("edc.vault.clientid"@, "company1"@)
        .insert("edc.vault.tenantid"@, "1"@)
        .insert("edc.vault.certificate"@, "./resources"@)
        .insert("edc.vault.name"@, "ionos"@)
        .insert("edc.vault.hashicorp.url"@, "http://consumer-vault:8200"@)
        .insert("edc.vault.hashicorp.token"@, "dev-token"@)
        .insert("edc.keystore"@, "/stackable/mount/cert/cert.pfx"@)
        .insert("edc.vault"@, "/stackable/mount/cert/vault.properties"@)
}

impl ConnectorConfigFragment {
    /// Environment variables the configuration asks for: none.
    pub fn compute_env(&self, _edc: &EDCCluster, _role_name: &str) -> (r: Vec<(String, String)>)
        ensures
            r@ == Seq::<(String, String)>::empty(),
    {
        Vec::new()
    }

    /// Command-line arguments the configuration asks for: none.
    pub fn compute_cli(&self, _edc: &EDCCluster, _role_name: &str) -> (r: Vec<(String, String)>)
        ensures
            r@ == Seq::<(String, String)>::empty(),
    {
        Vec::new()
    }

    /// The entries of one configuration file. Only the runtime property
    /// file carries resolved properties; every other file starts empty.
    pub fn compute_files(&self, edc: &EDCCluster, _role_name: &str, file: &str) -> (r: Vec<
        (String, String),
    >)
        ensures
            kv_sorted(r@),
            file@ == "config.properties"@ ==> kv_map(r@) == resolved_config_properties(
                name_any_view(edc),
            ),
            file@ != "config.properties"@ ==> r@ == Seq::<(String, String)>::empty(),
    {
        if !crate::strcmp::str_eq(file, "config.properties") {
            let r: Vec<(String, String)> = Vec::new();
            proof {
                assert(kv_sorted(r@));
            }
            return r;
        }
        let name = edc.name_any();
        let ghost nv = name_any_view(edc);
        let mut v: Vec<(String, String)> = Vec::new();
        proof {
            assert(kv_map(v@) =~= Map::<Seq<char>, Seq<char>>::empty());
            assert(kv_sorted(v@));
        }
        v = kv_put(v, "edc.hostname", name.clone());

        let mut ids_id = String::from_str("urn:connector:");
        ids_id.append(name.as_str());
        v = kv_put(v, "edc.ids.id", ids_id);

        v = kv_put(v, "edc.participant.id", name.clone());

        let mut dsp = String::from_str("http://");
        dsp.append(name.as_str());
        dsp.append(":");
        let protocol_port = fmt_u16(PROTOCOL_PORT);
        dsp.append(protocol_port.as_str());
        dsp.append("/protocol");
        v = kv_put(v, "edc.dsp.callback.address", dsp);

        v = kv_put(v, "edc.api.auth.key", String::from_str("password"));
        v = kv_put(v, "web.http.port", fmt_u16(HTTP_PORT));
        v = kv_put(v, "web.http.path", String::from_str("/api"));
        v = kv_put(v, "web.http.control.port", fmt_u16(CONTROL_PORT));
        v = kv_put(v, "web.http.control.path", String::from_str("/control"));
        v = kv_put(v, "web.http.management.port", fmt_u16(MANAGEMENT_PORT));
        v = kv_put(v, "web.http.management.path", String::from_str("/management"));
        v = kv_put(v, "web.http.protocol.port", fmt_u16(PROTOCOL_PORT));
        v = kv_put(v, "web.http.protocol.path", String::from_str("/protocol"));
        v = kv_put(v, "web.http.public.port", fmt_u16(PUBLIC_PORT));
        v = kv_put(v, "web.http.public.path", String::from_str("/public"));

        let mut tve = String::from_str("http://");
        tve.append(name.as_str());
        tve.append(":");
        let control_port = fmt_u16(CONTROL_PORT);
        tve.append(control_port.as_str());
        tve.append("/control/token");
        v = kv_put(v, "edc.dataplane.token.validation.endpoint", tve);

        v = kv_put(v, "edc.vault.clientid", String::from_str("company1"));
        v = kv_put(v, "edc.vault.tenantid", String::from_str("1"));
        v = kv_put(v, "edc.vault.certificate", String::from_str("./resources"));
        v = kv_put(v, "edc.vault.name", String::from_str("ionos"));
        v = kv_put(v, "edc.vault.hashicorp.url", String::from_str("http://consumer-vault:8200"));
        v = kv_put(v, "edc.vault.hashicorp.token", String::from_str("dev-token"));
        v = kv_put(v, "edc.keystore", String::from_str("/stackable/mount/cert/cert.pfx"));
        v = kv_put(v, "edc.vault", String::from_str("/stackable/mount/cert/vault.properties"));
        v
    }
}

} // verus!
