//! A parameterized statement: SQL text plus an ordered list of bound
//! host values.

use vstd::prelude::*;
use crate::host_value::{HostValue, HostValueModel};
use crate::textfmt::{dec_text, u64_text};

verus! {

/// A SQL text with its ordered bound parameters.
pub struct Query {
    /// The statement text.
    pub sql: String,
    /// The bound parameters, in positional order.
    pub parameters: Vec<HostValue>,
}

/// The models of a query's parameters.
pub open spec fn param_views(ps: Seq<HostValue>) -> Seq<HostValueModel> {
    ps.map_values(|v: HostValue| v@)
}

impl Query {
    /// A statement with no parameters yet.
    pub fn new(sql: String) -> (r: Query)
        ensures
            r.sql@ == sql@,
            r.parameters@.len() == 0,
    {
        Query { sql, parameters: Vec::new() }
    }

    /// Appends one positional parameter.
    pub fn add_parameter(&mut self, value: HostValue)
        ensures
            final(self).sql@ == old(self).sql@,
            param_views(final(self).parameters@) == param_views(old(self).parameters@).push(
                value@,
            ),
    {
        self.parameters.push(value);
        proof {
            assert(param_views(self.parameters@) =~= param_views(old(self).parameters@).push(
                value@,
            ));
        }
    }

    /// Replaces the whole parameter list.
    pub fn set_parameters(&mut self, params: Vec<HostValue>)
        ensures
            final(self).sql@ == old(self).sql@,
            final(self).parameters@ == params@,
    {
        self.parameters = params;
    }

    /// The statement text.
    pub fn get_sql(&self) -> (r: String)
        ensures
            r@ == self.sql@,
    {
        self.sql.clone()
    }

    /// The bound parameters, in order.
    pub fn get_parameters(&self) -> (r: Vec<HostValue>)
        ensures
            param_views(r@) == param_views(self.parameters@),
    {
        let n = self.parameters.len();
        let mut out: Vec<HostValue> = Vec::new();
        let mut i: usize = 0;
        while i < n
            invariant
                n == self.parameters@.len(),
                i <= n,
                out@.len() == i,
                forall|k: int| 0 <= k < i ==> out@[k]@ == self.parameters@[k]@,
            decreases n - i,
        {
            out.push(self.parameters[i].duplicate());
            i = i + 1;
        }
        proof {
            assert(param_views(out@) =~= param_views(self.parameters@));
        }
        out
    }

    /// A one-line description: the text and how many parameters are
    /// bound.
    pub fn describe(&self) -> (r: String)
        ensures
            r@ == "Query: "@ + self.sql@ + " (with "@ + dec_text(self.parameters@.len() as int)
                + " parameters)"@,
    {
        let mut s = String::from_str("Query: ");
        s.append(self.sql.as_str());
        s.append(" (with ");
        let count = u64_text(self.parameters.len() as u64);
        s.append(count.as_str());
        s.append(" parameters)");
        proof {
            assert(s@ =~= "Query: "@ + self.sql@ + " (with "@ + dec_text(
                self.parameters@.len() as int,
            ) + " parameters)"@);
        }
        s
    }
}

} // verus!
