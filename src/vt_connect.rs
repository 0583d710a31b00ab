//! Addressing the threat-intelligence service: the key that authenticates the
//! queries and the resources that they name.
use vstd::prelude::*;

verus! {

/// The address under which the service's file resources lie.
pub open spec fn files_base() -> Seq<char> {
    "https://www.virustotal.com/api/v3/files/"@
}

/// A client of the service; its key travels in the `x-apikey` header.
pub struct VTClient {
    pub api_key: String,
}

impl VTClient {
    /// A client that authenticates with `api_key`.
    pub fn new(api_key: &str) -> (r: VTClient)
        ensures
            r.api_key@ == api_key@,
    {
        VTClient { api_key: api_key.to_string() }
    }

    /// The resource of the file information query for a digest in hex.
    pub fn file_info_url(&self, hash_str: &str) -> (r: String)
        ensures
            r@ == files_base() + hash_str@,
    {
        let base = String::from_str("https://www.virustotal.com/api/v3/files/");
        base.concat(hash_str)
    }

    /// The resource of a relation query for a digest in hex.
    pub fn file_relation_url(&self, hash_str: &str, relation: &FileRelation) -> (r: String)
        ensures
            r@ == files_base() + hash_str@ + "/"@ + relation_name(*relation),
    {
        let base = String::from_str("https://www.virustotal.com/api/v3/files/");
        let with_hash = base.concat(hash_str);
        let with_slash = with_hash.concat("/");
        with_slash.concat(relation.as_str())
    }
}

/// The relations of a file that the service can be asked for.
#[derive(Debug, Clone, Copy, PartialEq, Eq, Structural)]
pub enum FileRelation {
    Behaviours,
    BundledFiles,
    Collections,
    Comments,
    ContactedDomains,
    ContactedIps,
    ContactedUrls,
    DroppedFiles,
    ExecutionParents,
    Graphs,
    PeResourceChildren,
    PeResourceParents,
    Votes,
}

/// The name of a relation in the service's resource paths.
pub open spec fn relation_name(r: FileRelation) -> Seq<char> {
    match r {
        FileRelation::Behaviours => "behaviours"@,
        FileRelation::BundledFiles => "bundled_files"@,
        FileRelation::Collections => "collections"@,
        FileRelation::Comments => "comments"@,
        FileRelation::ContactedDomains => "contacted_domains"@,
        FileRelation::ContactedIps => "contacted_ips"@,
        FileRelation::ContactedUrls => "contacted_urls"@,
        FileRelation::DroppedFiles => "dropped_files"@,
        FileRelation::ExecutionParents => "execution_parents"@,
        FileRelation::Graphs => "graphs"@,
        FileRelation::PeResourceChildren => "pe_resource_children"@,
        FileRelation::PeResourceParents => "pe_resource_parents"@,
        FileRelation::Votes => "votes"@,
    }
}

impl FileRelation {
    /// The name of the relation in the service's resource paths.
    pub fn as_str(&self) -> (r: &'static str)
        ensures
            r@ == relation_name(*self),
    {
        match self {
            FileRelation::Behaviours => "behaviours",
            FileRelation::BundledFiles => "bundled_files",
            FileRelation::Collections => "collections",
            FileRelation::Comments => "comments",
            FileRelation::ContactedDomains => "contacted_domains",
            FileRelation::ContactedIps => "contacted_ips",
            FileRelation::ContactedUrls => "contacted_urls",
            FileRelation::DroppedFiles => "dropped_files",
            FileRelation::ExecutionParents => "execution_parents",
            FileRelation::Graphs => "graphs",
            FileRelation::PeResourceChildren => "pe_resource_children",
            FileRelation::PeResourceParents => "pe_resource_parents",
            FileRelation::Votes => "votes",
        }
    }
}

} // verus!
