use vstd::prelude::*;
use std::collections::HashMap;

verus! {

broadcast use vstd::std_specs::hash::group_hash_axioms;

/// Pipeline steps that persist per-block artifacts.
#[derive(Debug, Clone, Copy, PartialEq, Eq, Structural)]
pub enum Step {
    Snos,
    Bridge,
}

/// Remote job kinds whose query identifiers are persisted per block.
#[derive(Debug, Clone, Copy, PartialEq, Eq, Structural)]
pub enum Query {
    BridgeTrace,
    BridgeProof,
}

pub open spec fn other_step(step: Step) -> Step {
    match step {
        Step::Snos => Step::Bridge,
        Step::Bridge => Step::Snos,
    }
}

pub open spec fn other_query(query: Query) -> Query {
    match query {
        Query::BridgeTrace => Query::BridgeProof,
        Query::BridgeProof => Query::BridgeTrace,
    }
}

/// The stage-record table: proofs, execution artifacts and remote query
/// identifiers, each keyed by block number and kind. This is the reference
/// store the pipeline core is verified against; a durable driver must
/// preserve exactly these lookup semantics across restarts.
#[derive(Debug)]
pub struct StageStore {
    pub snos_proofs: HashMap<u32, Vec<u8>>,
    pub bridge_proofs: HashMap<u32, Vec<u8>>,
    pub snos_pies: HashMap<u32, Vec<u8>>,
    pub bridge_pies: HashMap<u32, Vec<u8>>,
    pub trace_query_ids: HashMap<u32, String>,
    pub proof_query_ids: HashMap<u32, String>,
}

impl StageStore {
    pub open spec fn proof_map(self, step: Step) -> Map<u32, Vec<u8>> {
        match step {
            Step::Snos => self.snos_proofs@,
            Step::Bridge => self.bridge_proofs@,
        }
    }

    pub open spec fn pie_map(self, step: Step) -> Map<u32, Vec<u8>> {
        match step {
            Step::Snos => self.snos_pies@,
            Step::Bridge => self.bridge_pies@,
        }
    }

    pub open spec fn query_id_map(self, query: Query) -> Map<u32, String> {
        match query {
            Query::BridgeTrace => self.trace_query_ids@,
            Query::BridgeProof => self.proof_query_ids@,
        }
    }

    pub open spec fn is_empty(self) -> bool {
        &&& self.snos_proofs@ == Map::<u32, Vec<u8>>::empty()
        &&& self.bridge_proofs@ == Map::<u32, Vec<u8>>::empty()
        &&& self.snos_pies@ == Map::<u32, Vec<u8>>::empty()
        &&& self.bridge_pies@ == Map::<u32, Vec<u8>>::empty()
        &&& self.trace_query_ids@ == Map::<u32, String>::empty()
        &&& self.proof_query_ids@ == Map::<u32, String>::empty()
    }

    pub fn new() -> (r: StageStore)
        ensures
            r.is_empty(),
    {
        StageStore {
            snos_proofs: HashMap::new(),
            bridge_proofs: HashMap::new(),
            snos_pies: HashMap::new(),
            bridge_pies: HashMap::new(),
            trace_query_ids: HashMap::new(),
            proof_query_ids: HashMap::new(),
        }
    }

    pub fn get_proof(&self, block_number: u32, step: Step) -> (r: Option<&Vec<u8>>)
        ensures
            match r {
                Some(v) => self.proof_map(step).contains_key(block_number)
                    && *v == self.proof_map(step)[block_number],
                None => !self.proof_map(step).contains_key(block_number),
            },
    {
        match step {
            Step::Snos => self.snos_proofs.get(&block_number),
            Step::Bridge => self.bridge_proofs.get(&block_number),
        }
    }

    pub fn add_proof(&mut self, block_number: u32, proof: Vec<u8>, step: Step)
        ensures
            final(self).proof_map(step) == old(self).proof_map(step).insert(
                block_number,
                proof,
            ),
            final(self).proof_map(other_step(step)) == old(self).proof_map(other_step(step)),
            final(self).pie_map(Step::Snos) == old(self).pie_map(Step::Snos),
            final(self).pie_map(Step::Bridge) == old(self).pie_map(Step::Bridge),
            final(self).query_id_map(Query::BridgeTrace) == old(self).query_id_map(
                Query::BridgeTrace,
            ),
            final(self).query_id_map(Query::BridgeProof) == old(self).query_id_map(
                Query::BridgeProof,
            ),
    {
        match step {
            Step::Snos => {
                self.snos_proofs.insert(block_number, proof);
            },
            Step::Bridge => {
                self.bridge_proofs.insert(block_number, proof);
            },
        }
    }

    pub fn get_pie(&self, block_number: u32, step: Step) -> (r: Option<&Vec<u8>>)
        ensures
            match r {
                Some(v) => self.pie_map(step).contains_key(block_number)
                    && *v == self.pie_map(step)[block_number],
                None => !self.pie_map(step).contains_key(block_number),
            },
    {
        match step {
            Step::Snos => self.snos_pies.get(&block_number),
            Step::Bridge => self.bridge_pies.get(&block_number),
        }
    }

    pub fn add_pie(&mut self, block_number: u32, pie: Vec<u8>, step: Step)
        ensures
            final(self).pie_map(step) == old(self).pie_map(step).insert(block_number, pie),
            final(self).pie_map(other_step(step)) == old(self).pie_map(other_step(step)),
            final(self).proof_map(Step::Snos) == old(self).proof_map(Step::Snos),
            final(self).proof_map(Step::Bridge) == old(self).proof_map(Step::Bridge),
            final(self).query_id_map(Query::BridgeTrace) == old(self).query_id_map(
                Query::BridgeTrace,
            ),
            final(self).query_id_map(Query::BridgeProof) == old(self).query_id_map(
                Query::BridgeProof,
            ),
    {
        match step {
            Step::Snos => {
                self.snos_pies.insert(block_number, pie);
            },
            Step::Bridge => {
                self.bridge_pies.insert(block_number, pie);
            },
        }
    }

    pub fn get_query_id(&self, block_number: u32, query: Query) -> (r: Option<&String>)
        ensures
            match r {
                Some(v) => self.query_id_map(query).contains_key(block_number)
                    && *v == self.query_id_map(query)[block_number],
                None => !self.query_id_map(query).contains_key(block_number),
            },
    {
        match query {
            Query::BridgeTrace => self.trace_query_ids.get(&block_number),
            Query::BridgeProof => self.proof_query_ids.get(&block_number),
        }
    }

    pub fn add_query_id(&mut self, block_number: u32, query_id: String, query: Query)
        ensures
            final(self).query_id_map(query) == old(self).query_id_map(query).insert(
                block_number,
                query_id,
            ),
            final(self).query_id_map(other_query(query)) == old(self).query_id_map(
                other_query(query),
            ),
            final(self).proof_map(Step::Snos) == old(self).proof_map(Step::Snos),
            final(self).proof_map(Step::Bridge) == old(self).proof_map(Step::Bridge),
            final(self).pie_map(Step::Snos) == old(self).pie_map(Step::Snos),
            final(self).pie_map(Step::Bridge) == old(self).pie_map(Step::Bridge),
    {
        match query {
            Query::BridgeTrace => {
                self.trace_query_ids.insert(block_number, query_id);
            },
            Query::BridgeProof => {
                self.proof_query_ids.insert(block_number, query_id);
            },
        }
    }
}

} // verus!
