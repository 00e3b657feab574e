//! Per-user container networks: their names, subnets and the runtime
//! commands that create, probe and remove them.
use vstd::prelude::*;
use vstd::string::StringSliceAdditionalSpecFns;

use crate::config::NetworkPolicy;
use crate::text::{concat, concat3, decimal, decimal_string, push_text, strings_view};

verus! {

/// Sum of the bytes, modulo 256.
pub open spec fn byte_sum(b: Seq<u8>) -> nat
    decreases b.len(),
{
    if b.len() == 0 {
        0
    } else {
        ((byte_sum(b.drop_last()) + b.last()) % 256) as nat
    }
}

/// `cage_net_<user>`.
pub open spec fn network_name_of(user_id: Seq<char>) -> Seq<char> {
    "cage_net_"@ + user_id
}

/// `10.<n>.0.0/24` where `n` is the user's byte sum modulo 200, plus 10.
pub open spec fn subnet_of(user_id: &str) -> Seq<char> {
    "10."@ + decimal(byte_sum(user_id.spec_bytes()) % 200 + 10) + ".0.0/24"@
}

/// Names and commands for user networks.
pub struct NetworkManager {
    pub podman_path: String,
}

impl NetworkManager {
    pub fn new(podman_path: String) -> (r: NetworkManager)
        ensures
            r.podman_path == podman_path,
    {
        NetworkManager { podman_path }
    }

    pub fn network_name(user_id: &str) -> (r: String)
        ensures
            r@ == network_name_of(user_id@),
    {
        concat("cage_net_", user_id)
    }

    /// The network a user's container joins: `none` when networking is off.
    pub fn network_for(user_id: &str, policy: &NetworkPolicy) -> (r: String)
        ensures
            !policy.enabled ==> r@ == "none"@,
            policy.enabled ==> r@ == network_name_of(user_id@),
    {
        if !policy.enabled {
            return "none".to_string();
        }
        Self::network_name(user_id)
    }

    pub fn subnet(user_id: &str) -> (r: String)
        ensures
            r@ == subnet_of(user_id),
    {
        let bytes = user_id.as_bytes();
        let mut sum: u8 = 0;
        let mut i: usize = 0;
        while i < bytes.len()
            invariant
                i <= bytes@.len(),
                bytes@ == user_id.spec_bytes(),
                sum as nat == byte_sum(bytes@.take(i as int)),
            decreases bytes@.len() - i,
        {
            assert(bytes@.take(i + 1).drop_last() =~= bytes@.take(i as int));
            sum = sum.wrapping_add(bytes[i]);
            i = i + 1;
        }
        assert(bytes@.take(bytes@.len() as int) =~= bytes@);
        let octet = (sum % 200) as u64 + 10;
        let n = decimal_string(octet);
        concat3("10.", n.as_str(), ".0.0/24")
    }

    /// Runtime arguments that create the user's network.
    pub fn create_args(user_id: &str) -> (r: Vec<String>)
        ensures
            strings_view(r@) == seq![
                "network"@,
                "create"@,
                network_name_of(user_id@),
                "--subnet"@,
                subnet_of(user_id),
                "--disable-dns=false"@,
            ],
    {
        let name = Self::network_name(user_id);
        let subnet = Self::subnet(user_id);
        let mut v: Vec<String> = Vec::new();
        assert(strings_view(v@) =~= Seq::empty());
        push_text(&mut v, "network");
        push_text(&mut v, "create");
        push_text(&mut v, name.as_str());
        push_text(&mut v, "--subnet");
        push_text(&mut v, subnet.as_str());
        push_text(&mut v, "--disable-dns=false");
        assert(strings_view(v@) =~= seq![
            "network"@,
            "create"@,
            network_name_of(user_id@),
            "--subnet"@,
            subnet_of(user_id),
            "--disable-dns=false"@,
        ]);
        v
    }

    /// Runtime arguments that remove the user's network.
    pub fn delete_args(user_id: &str) -> (r: Vec<String>)
        ensures
            strings_view(r@) == seq!["network"@, "rm"@, network_name_of(user_id@)],
    {
        let name = Self::network_name(user_id);
        let mut v: Vec<String> = Vec::new();
        assert(strings_view(v@) =~= Seq::empty());
        push_text(&mut v, "network");
        push_text(&mut v, "rm");
        push_text(&mut v, name.as_str());
        assert(strings_view(v@) =~= seq!["network"@, "rm"@, network_name_of(user_id@)]);
        v
    }
}

} // verus!
