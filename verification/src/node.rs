//! The window node as the resolution pipeline reads it: a plain-value
//! mirror of the fields the compositor's tree snapshot reports for one
//! scratchpad member. The node is read-only; one resolution pass borrows it.

use vstd::prelude::*;

verus! {

/// X11 window properties, as the compositor reports them for one window.
pub struct WindowProperties {
    pub class: Option<String>,
    pub instance: Option<String>,
    pub title: Option<String>,
    pub window_role: Option<String>,
}

/// One window node out of the compositor's tree snapshot: what the
/// resolution pipeline reads of it.
pub struct WindowNode {
    pub id: i64,
    pub pid: Option<i32>,
    pub app_id: Option<String>,
    pub window_properties: Option<WindowProperties>,
    pub name: Option<String>,
}

/// The window's class, where the compositor reported properties.
pub open spec fn spec_node_class(n: WindowNode) -> Option<String> {
    match n.window_properties {
        Some(wp) => wp.class,
        None => None,
    }
}

/// The window's instance, where the compositor reported properties.
pub open spec fn spec_node_instance(n: WindowNode) -> Option<String> {
    match n.window_properties {
        Some(wp) => wp.instance,
        None => None,
    }
}

/// The window's accessibility role, where the compositor reported
/// properties.
pub open spec fn spec_node_role(n: WindowNode) -> Option<String> {
    match n.window_properties {
        Some(wp) => wp.window_role,
        None => None,
    }
}

/// The label source: the property title where present, else the node's raw
/// name.
pub open spec fn spec_node_title(n: WindowNode) -> Option<String> {
    match n.window_properties {
        Some(wp) => if wp.title is Some {
            wp.title
        } else {
            n.name
        },
        None => n.name,
    }
}

pub(crate) fn clone_opt_string(o: &Option<String>) -> (r: Option<String>)
    ensures
        r == *o,
{
    match o {
        Some(s) => Some(s.clone()),
        None => None,
    }
}

pub fn node_get_class(node: &WindowNode) -> (r: Option<String>)
    ensures
        r == spec_node_class(*node),
{
    match &node.window_properties {
        Some(wp) => clone_opt_string(&wp.class),
        None => None,
    }
}

pub fn node_get_instance(node: &WindowNode) -> (r: Option<String>)
    ensures
        r == spec_node_instance(*node),
{
    match &node.window_properties {
        Some(wp) => clone_opt_string(&wp.instance),
        None => None,
    }
}

pub fn node_get_role(node: &WindowNode) -> (r: Option<String>)
    ensures
        r == spec_node_role(*node),
{
    match &node.window_properties {
        Some(wp) => clone_opt_string(&wp.window_role),
        None => None,
    }
}

pub fn node_get_title(node: &WindowNode) -> (r: Option<String>)
    ensures
        r == spec_node_title(*node),
{
    match &node.window_properties {
        Some(wp) => if wp.title.is_some() {
            clone_opt_string(&wp.title)
        } else {
            clone_opt_string(&node.name)
        },
        None => clone_opt_string(&node.name),
    }
}

} // verus!
