//! Where the resources of a zone lie in the API.

use vstd::prelude::*;
#[allow(unused_imports)]
use vstd::string::*;

verus! {

/// The servers of a zone.
pub open spec fn servers(zone: Seq<char>) -> Seq<char> {
    "/instance/v1/zones/"@ + zone + "/servers"@
}

/// A server.
pub open spec fn server(zone: Seq<char>, id: Seq<char>) -> Seq<char> {
    "/instance/v1/zones/"@ + zone + "/servers/"@ + id
}

/// Where a server is acted upon.
pub open spec fn server_action(zone: Seq<char>, id: Seq<char>) -> Seq<char> {
    "/instance/v1/zones/"@ + zone + "/servers/"@ + id + "/action"@
}

/// The server products of a zone.
pub open spec fn products(zone: Seq<char>) -> Seq<char> {
    "/instance/v1/zones/"@ + zone + "/products/servers"@
}

/// The public addresses of a zone.
pub open spec fn ips(zone: Seq<char>) -> Seq<char> {
    "/instance/v1/zones/"@ + zone + "/ips"@
}

/// A public address.
pub open spec fn ip(zone: Seq<char>, id: Seq<char>) -> Seq<char> {
    "/instance/v1/zones/"@ + zone + "/ips/"@ + id
}

/// A snapshot.
pub open spec fn snapshot(zone: Seq<char>, id: Seq<char>) -> Seq<char> {
    "/block/v1/zones/"@ + zone + "/snapshots/"@ + id
}

/// The volumes of a zone.
pub open spec fn volumes(zone: Seq<char>) -> Seq<char> {
    "/block/v1/zones/"@ + zone + "/volumes"@
}

/// A volume.
pub open spec fn volume(zone: Seq<char>, id: Seq<char>) -> Seq<char> {
    "/block/v1/zones/"@ + zone + "/volumes/"@ + id
}

/// The path of the servers of a zone.
pub fn servers_path(zone: &str) -> (path: String)
    ensures
        path@ == servers(zone@),
{
    "/instance/v1/zones/".to_owned().concat(zone).concat("/servers")
}

/// The path of a server.
pub fn server_path(zone: &str, id: &str) -> (path: String)
    ensures
        path@ == server(zone@, id@),
{
    "/instance/v1/zones/".to_owned().concat(zone).concat("/servers/").concat(id)
}

/// The path where a server is acted upon.
pub fn server_action_path(zone: &str, id: &str) -> (path: String)
    ensures
        path@ == server_action(zone@, id@),
{
    "/instance/v1/zones/".to_owned().concat(zone).concat("/servers/").concat(id).concat("/action")
}

/// The path of the server products of a zone.
pub fn products_path(zone: &str) -> (path: String)
    ensures
        path@ == products(zone@),
{
    "/instance/v1/zones/".to_owned().concat(zone).concat("/products/servers")
}

/// The path of the public addresses of a zone.
pub fn ips_path(zone: &str) -> (path: String)
    ensures
        path@ == ips(zone@),
{
    "/instance/v1/zones/".to_owned().concat(zone).concat("/ips")
}

/// The path of a public address.
pub fn ip_path(zone: &str, id: &str) -> (path: String)
    ensures
        path@ == ip(zone@, id@),
{
    "/instance/v1/zones/".to_owned().concat(zone).concat("/ips/").concat(id)
}

/// The path of a snapshot.
pub fn snapshot_path(zone: &str, id: &str) -> (path: String)
    ensures
        path@ == snapshot(zone@, id@),
{
    "/block/v1/zones/".to_owned().concat(zone).concat("/snapshots/").concat(id)
}

/// The path of the volumes of a zone.
pub fn volumes_path(zone: &str) -> (path: String)
    ensures
        path@ == volumes(zone@),
{
    "/block/v1/zones/".to_owned().concat(zone).concat("/volumes")
}

/// The path of a volume.
pub fn volume_path(zone: &str, id: &str) -> (path: String)
    ensures
        path@ == volume(zone@, id@),
{
    "/block/v1/zones/".to_owned().concat(zone).concat("/volumes/").concat(id)
}

/// No server, public address or volume of a zone lies where a snapshot of that zone lies.
pub proof fn lemma_snapshots_lie_apart(zone: Seq<char>, id: Seq<char>, snapshot_id: Seq<char>)
    ensures
        server(zone, id) != snapshot(zone, snapshot_id),
        ip(zone, id) != snapshot(zone, snapshot_id),
        volume(zone, id) != snapshot(zone, snapshot_id),
{
    reveal_strlit("/instance/v1/zones/");
    reveal_strlit("/block/v1/zones/");
    reveal_strlit("/volumes/");
    reveal_strlit("/snapshots/");
    let there = snapshot(zone, snapshot_id);
    assert(there[1] == 'b');
    assert(server(zone, id)[1] == 'i');
    assert(ip(zone, id)[1] == 'i');
    let at = "/block/v1/zones/"@.len() + zone.len() + 1;
    assert(there[at as int] == 's');
    assert(volume(zone, id)[at as int] == 'v');
}

} // verus!
