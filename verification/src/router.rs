//! The function-call router.
//!
//! The speech agent issues function calls; only client-side calls are
//! handled here.  For each one the router parses the JSON-encoded argument
//! string, dispatches by name to exactly one backend operation, and resolves
//! the identifiers the operation needs against the cached catalog and the
//! session's active order.  A call whose arguments do not parse yields
//! exactly one error-shaped response and no backend operation; a call whose
//! identifiers do not resolve yields a descriptive failure response; a call
//! naming an unknown operation yields nothing at all.  Performing the chosen
//! backend operation is I/O and lives with the caller, which then formats
//! the outcome with the helpers below.

use vstd::prelude::*;
use vstd::string::StringExecFns;

use crate::api::FunctionCallRequestItem;
use crate::qu::{catalog_has_modifier, find_item, find_modifier, menu_has_item, Menus, Modifiers};

verus! {

/// The argument fields a function call may carry, extracted from its JSON
/// argument object; a field that is absent or has the wrong type is `None`.
pub struct CallArguments {
    pub query: Option<String>,
    pub parent: Option<String>,
    pub item_path_key: Option<String>,
    pub item_id: Option<String>,
    pub limit: Option<u64>,
}

/// The model of the argument fields: the same shape over sequences.
pub struct CallArgumentsView {
    pub query: Option<Seq<char>>,
    pub parent: Option<Seq<char>>,
    pub item_path_key: Option<Seq<char>>,
    pub item_id: Option<Seq<char>>,
    pub limit: Option<u64>,
}

/// The text an optional string carries.
pub open spec fn opt_view(o: Option<String>) -> Option<Seq<char>> {
    match o {
        Some(s) => Some(s@),
        None => None,
    }
}

impl View for CallArguments {
    type V = CallArgumentsView;

    open spec fn view(&self) -> CallArgumentsView {
        CallArgumentsView {
            query: opt_view(self.query),
            parent: opt_view(self.parent),
            item_path_key: opt_view(self.item_path_key),
            item_id: opt_view(self.item_id),
            limit: self.limit,
        }
    }
}

/// What parsing an argument string yields: the extracted fields, or the
/// parser's message.  Parsing is a function of the string alone; this name
/// stands for serde_json's result so that callers' contracts can speak of
/// it.
pub uninterp spec fn parsed_call_arguments(s: Seq<char>) -> Result<CallArgumentsView, Seq<char>>;

/// Relies on serde_json::from_str::<Value> and on Value::get, Value::as_str
/// and Value::as_u64: parses `arguments` as JSON and extracts the fields
/// the router reads; on malformed JSON the parser's message is handed back.
/// The outcome is exactly the named parse result of the argument text.
#[verifier::external_body]
fn parse_call_arguments(arguments: &str) -> (r: Result<CallArguments, String>)
    ensures
        r matches Ok(args) ==> (parsed_call_arguments(arguments@) matches Ok(v) && v == args@),
        r matches Err(e) ==> (parsed_call_arguments(arguments@) matches Err(pe) && pe == e@),
{
    match serde_json::from_str::<serde_json::Value>(arguments) {
        Ok(v) => Ok(CallArguments {
            query: v.get("query").and_then(|x| x.as_str()).map(|s| s.to_string()),
            parent: v.get("parent").and_then(|x| x.as_str()).map(|s| s.to_string()),
            item_path_key: v.get("itemPathKey").and_then(|x| x.as_str()).map(|s| s.to_string()),
            item_id: v.get("itemId").and_then(|x| x.as_str()).map(|s| s.to_string()),
            limit: v.get("limit").and_then(|x| x.as_u64()),
        }),
        Err(e) => Err(e.to_string()),
    }
}

/// One backend operation, ready to perform: every identifier it needs has
/// been resolved.
pub enum BackendOp {
    /// Free-text search over the menu.
    QueryItems { query: String, limit: u64 },
    /// Free-text search over the modifiers beneath a parent item.
    QueryModifiers { query: String, parent: String, limit: u64 },
    /// Add the item with this path key to the active order.
    AddItem { order_id: String, item_path_key: String },
    /// Delete this item-in-order from the active order.
    DeleteItem { order_id: String, item_id: String },
    /// Add the modifier with this path key to an item of the active order.
    AddModifier { order_id: String, item_id: String, item_path_key: String },
    /// Fetch the active order's full detail.
    OrderDetail { order_id: String },
}

/// The response sent upstream for one handled function call.  Success and
/// failure are distinguished only by the shape of `content`, as the
/// upstream protocol has it.
pub struct FunctionCallResponse {
    pub id: String,
    pub name: String,
    pub content: String,
}

/// What the router decides for one function call.
pub enum RouteDecision {
    /// Not this gateway's call (server-side, or an unknown name): no
    /// response at all.
    Ignore,
    /// Respond immediately without touching any backend.
    Respond(FunctionCallResponse),
    /// Perform this backend operation, then respond with its outcome.
    Invoke(BackendOp),
}

/// The text of an optional string argument; an absent one reads as empty.
pub open spec fn opt_text_or_empty(o: Option<Seq<char>>) -> Seq<char> {
    match o {
        Some(s) => s,
        None => ""@,
    }
}

/// The result-count limit of a query: the caller's, or five by default.
pub open spec fn limit_or_default(o: Option<u64>) -> u64 {
    match o {
        Some(l) => l,
        None => 5,
    }
}

/// The content of the response to a call whose arguments did not parse.
pub open spec fn spec_parse_error_content(e: Seq<char>) -> Seq<char> {
    "{\"error\":\"invalid arguments JSON: "@ + e + "\"}"@
}

fn string_or_empty(o: Option<String>) -> (r: String)
    ensures
        r@ == opt_text_or_empty(opt_view(o)),
{
    match o {
        Some(s) => s,
        None => "".to_owned(),
    }
}

fn limit_or_five(o: Option<u64>) -> (r: u64)
    ensures
        r == limit_or_default(o),
{
    match o {
        Some(l) => l,
        None => 5,
    }
}

/// Builds the error response content for a failed argument parse.
pub fn parse_error_content(e: &String) -> (r: String)
    ensures
        r@ == spec_parse_error_content(e@),
{
    let mut content: String = "{\"error\":\"invalid arguments JSON: ".to_owned();
    content.append(e.as_str());
    content.append("\"}");
    content
}

/// Builds the response for one function call from its outcome content.
pub fn make_response(id: &String, name: &String, content: String) -> (r: FunctionCallResponse)
    ensures
        r.id@ == id@,
        r.name@ == name@,
        r.content == content,
{
    FunctionCallResponse { id: id.clone(), name: name.clone(), content }
}

/// The content a completed order mutation responds with: the backend's own
/// text, whether it reports success or failure.
pub fn backend_result_content(outcome: Result<String, String>) -> (r: String)
    ensures
        outcome matches Ok(t) ==> r == t,
        outcome matches Err(e) ==> r == e,
{
    match outcome {
        Ok(t) => t,
        Err(e) => e,
    }
}

/// The router's dispatch rule for a client-side call whose arguments
/// parsed: relates the call, the parsed fields, the session's order and the
/// cached catalogs to the decision taken.
pub open spec fn spec_dispatch(
    item: FunctionCallRequestItem,
    args: CallArgumentsView,
    order_id: Option<String>,
    menus: Menus,
    modifiers: Modifiers,
    r: RouteDecision,
) -> bool {
    let key = opt_text_or_empty(args.item_path_key);
    &&& item.name@ == "query_items"@ ==> (r matches RouteDecision::Invoke(
        BackendOp::QueryItems { query, limit },
    ) && query@ == opt_text_or_empty(args.query) && limit == limit_or_default(args.limit))
    &&& item.name@ == "query_modifiers"@ ==> (r matches RouteDecision::Invoke(
        BackendOp::QueryModifiers { query, parent, limit },
    ) && query@ == opt_text_or_empty(args.query) && parent@ == opt_text_or_empty(args.parent)
        && limit == limit_or_default(args.limit))
    &&& item.name@ == "add_item"@ ==> {
        if menu_has_item(menus, key) && order_id is Some {
            r matches RouteDecision::Invoke(
                BackendOp::AddItem { order_id: oid, item_path_key: k },
            ) && oid@ == order_id.unwrap()@ && k@ == key
        } else {
            r matches RouteDecision::Respond(resp) && resp.id@ == item.id@ && resp.name@
                == item.name@ && resp.content@ == "Failed - item and/or order error."@
        }
    }
    &&& item.name@ == "delete_item"@ ==> {
        if order_id is Some {
            r matches RouteDecision::Invoke(BackendOp::DeleteItem { order_id: oid, item_id })
                && oid@ == order_id.unwrap()@ && item_id@ == opt_text_or_empty(args.item_id)
        } else {
            r matches RouteDecision::Respond(resp) && resp.id@ == item.id@ && resp.name@
                == item.name@ && resp.content@ == "Failed - order not present."@
        }
    }
    &&& item.name@ == "add_modifier"@ ==> {
        if catalog_has_modifier(modifiers, key) && order_id is Some {
            r matches RouteDecision::Invoke(
                BackendOp::AddModifier { order_id: oid, item_id, item_path_key: k },
            ) && oid@ == order_id.unwrap()@ && item_id@ == opt_text_or_empty(args.item_id)
                && k@ == key
        } else {
            r matches RouteDecision::Respond(resp) && resp.id@ == item.id@ && resp.name@
                == item.name@ && resp.content@ == "Failed - item and/or order error."@
        }
    }
    &&& item.name@ == "order"@ ==> {
        if order_id is Some {
            r matches RouteDecision::Invoke(BackendOp::OrderDetail { order_id: oid }) && oid@
                == order_id.unwrap()@
        } else {
            r matches RouteDecision::Respond(resp) && resp.id@ == item.id@ && resp.name@
                == item.name@ && resp.content@ == "Failed - no order present."@
        }
    }
    &&& (item.name@ != "query_items"@ && item.name@ != "query_modifiers"@ && item.name@
        != "add_item"@ && item.name@ != "delete_item"@ && item.name@ != "add_modifier"@
        && item.name@ != "order"@) ==> r is Ignore
}

/// Decides one client-side function call, given the outcome of parsing its
/// argument string.  This is the router's whole decision rule:
///
/// - a call that is not client-side is ignored;
/// - a call whose arguments did not parse yields exactly one error-shaped
///   response and no backend operation, whatever its name;
/// - each of the six known operations resolves its identifiers and either
///   yields its backend operation or a descriptive failure response;
/// - a call naming an unknown operation yields no response at all.
pub fn route_parsed(
    item: &FunctionCallRequestItem,
    parsed: Result<CallArguments, String>,
    order_id: &Option<String>,
    menus: &Menus,
    modifiers: &Modifiers,
) -> (r: RouteDecision)
    requires
        menus.value is Some,
    ensures
        !item.client_side ==> r is Ignore,
        parsed matches Err(e) ==> (item.client_side ==> (r matches RouteDecision::Respond(resp)
            && resp.id@ == item.id@ && resp.name@ == item.name@
            && resp.content@ == spec_parse_error_content(e@))),
        parsed matches Ok(args) ==> item.client_side ==> spec_dispatch(
            *item,
            args@,
            *order_id,
            *menus,
            *modifiers,
            r,
        ),
{
    proof {
        // the six operation names are pairwise distinct, so at most one
        // dispatch clause of the contract applies to any call
        reveal_strlit("query_items");
        reveal_strlit("query_modifiers");
        reveal_strlit("add_item");
        reveal_strlit("delete_item");
        reveal_strlit("add_modifier");
        reveal_strlit("order");
        assert("query_items"@.len() == 11);
        assert("query_modifiers"@.len() == 15);
        assert("add_item"@.len() == 8);
        assert("delete_item"@.len() == 11);
        assert("add_modifier"@.len() == 12);
        assert("order"@.len() == 5);
        assert("query_items"@[0] == 'q' && "delete_item"@[0] == 'd');
        assert("query_items"@ != "query_modifiers"@);
        assert("query_items"@ != "add_item"@);
        assert("query_items"@ != "delete_item"@);
        assert("query_items"@ != "add_modifier"@);
        assert("query_items"@ != "order"@);
        assert("query_modifiers"@ != "add_item"@);
        assert("query_modifiers"@ != "delete_item"@);
        assert("query_modifiers"@ != "add_modifier"@);
        assert("query_modifiers"@ != "order"@);
        assert("add_item"@ != "delete_item"@);
        assert("add_item"@ != "add_modifier"@);
        assert("add_item"@ != "order"@);
        assert("delete_item"@ != "add_modifier"@);
        assert("delete_item"@ != "order"@);
        assert("add_modifier"@ != "order"@);
    }
    if !item.client_side {
        return RouteDecision::Ignore;
    }
    let args = match parsed {
        Err(e) => {
            let content = parse_error_content(&e);
            return RouteDecision::Respond(make_response(&item.id, &item.name, content));
        },
        Ok(a) => a,
    };
    if item.name.eq(&"query_items".to_owned()) {
        return RouteDecision::Invoke(BackendOp::QueryItems {
            query: string_or_empty(args.query),
            limit: limit_or_five(args.limit),
        });
    }
    if item.name.eq(&"query_modifiers".to_owned()) {
        return RouteDecision::Invoke(BackendOp::QueryModifiers {
            query: string_or_empty(args.query),
            parent: string_or_empty(args.parent),
            limit: limit_or_five(args.limit),
        });
    }
    if item.name.eq(&"add_item".to_owned()) {
        let key = string_or_empty(args.item_path_key);
        let found = find_item(menus, key);
        return match (found, order_id) {
            (Some(it), Some(oid)) => RouteDecision::Invoke(BackendOp::AddItem {
                order_id: oid.clone(),
                item_path_key: it.item_path_key,
            }),
            _ => RouteDecision::Respond(make_response(
                &item.id,
                &item.name,
                "Failed - item and/or order error.".to_owned(),
            )),
        };
    }
    if item.name.eq(&"delete_item".to_owned()) {
        return match order_id {
            Some(oid) => RouteDecision::Invoke(BackendOp::DeleteItem {
                order_id: oid.clone(),
                item_id: string_or_empty(args.item_id),
            }),
            None => RouteDecision::Respond(make_response(
                &item.id,
                &item.name,
                "Failed - order not present.".to_owned(),
            )),
        };
    }
    if item.name.eq(&"add_modifier".to_owned()) {
        let key = string_or_empty(args.item_path_key);
        let found = find_modifier(modifiers, key);
        return match (found, order_id) {
            (Some(m), Some(oid)) => RouteDecision::Invoke(BackendOp::AddModifier {
                order_id: oid.clone(),
                item_id: string_or_empty(args.item_id),
                item_path_key: m.item_path_key,
            }),
            _ => RouteDecision::Respond(make_response(
                &item.id,
                &item.name,
                "Failed - item and/or order error.".to_owned(),
            )),
        };
    }
    if item.name.eq(&"order".to_owned()) {
        return match order_id {
            Some(oid) => RouteDecision::Invoke(BackendOp::OrderDetail { order_id: oid.clone() }),
            None => RouteDecision::Respond(make_response(
                &item.id,
                &item.name,
                "Failed - no order present.".to_owned(),
            )),
        };
    }
    RouteDecision::Ignore
}

/// Routes one agent-issued function call: parses its argument string and
/// decides what to do.  The decision is pinned over the named parse result
/// of the argument text: a call that is not client-side is ignored; a call
/// whose arguments do not parse yields exactly one error-shaped response
/// naming the parser's message; one whose arguments parse is dispatched by
/// `spec_dispatch`, so a backend operation is only ever invoked for one of
/// the six known operation names.
pub fn route_call(
    item: &FunctionCallRequestItem,
    order_id: &Option<String>,
    menus: &Menus,
    modifiers: &Modifiers,
) -> (r: RouteDecision)
    requires
        menus.value is Some,
    ensures
        !item.client_side ==> r is Ignore,
        item.client_side ==> (parsed_call_arguments(item.arguments@) matches Err(pe) ==> (
        r matches RouteDecision::Respond(resp) && resp.id@ == item.id@ && resp.name@
            == item.name@ && resp.content@ == spec_parse_error_content(pe))),
        item.client_side ==> (parsed_call_arguments(item.arguments@) matches Ok(args)
            ==> spec_dispatch(*item, args, *order_id, *menus, *modifiers, r)),
        r is Invoke ==> item.client_side && (item.name@ == "query_items"@ || item.name@
            == "query_modifiers"@ || item.name@ == "add_item"@ || item.name@ == "delete_item"@
            || item.name@ == "add_modifier"@ || item.name@ == "order"@),
        r matches RouteDecision::Respond(resp) ==> resp.id@ == item.id@ && resp.name@
            == item.name@,
{
    let parsed = parse_call_arguments(item.arguments.as_str());
    route_parsed(item, parsed, order_id, menus, modifiers)
}

} // verus!
