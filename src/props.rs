//! Settings: which fields come first, and which are left out of the line view.
use vstd::prelude::*;

verus! {

/// Display settings of the viewer.
#[derive(Clone)]
pub struct Props {
    /// Names of the fields that are shown first, in this order.
    pub fields_order: Vec<String>,
    /// Names of the fields that the line view leaves out.
    pub fields_suppressed: Vec<String>,
}

impl Default for Props {
    fn default() -> (r: Props)
        ensures
            r.fields_order@.len() == 0,
            r.fields_suppressed@.len() == 0,
    {
        Props { fields_order: Vec::new(), fields_suppressed: Vec::new() }
    }
}

/// The settings in effect: those loaded, with each list given on the
/// command line taking the place of the loaded one.
pub fn init_props(
    props: Props,
    field_order: Option<Vec<String>>,
    suppressed_fields: Option<Vec<String>>,
) -> (r: Props)
    ensures
        r.fields_order@ == (match field_order {
            Some(v) => v@,
            None => props.fields_order@,
        }),
        r.fields_suppressed@ == (match suppressed_fields {
            Some(v) => v@,
            None => props.fields_suppressed@,
        }),
{
    let mut props = props;
    if let Some(e) = field_order {
        props.fields_order = e;
    }
    if let Some(e) = suppressed_fields {
        props.fields_suppressed = e;
    }
    props
}

} // verus!
