//! The update statements sent to the relational store, built as text with
//! positional parameters, together with the bound values in matching
//! order. Only the fields present in a request appear in the statement.

use vstd::prelude::*;
use vstd::string::StringExecFns;
use crate::models::{UpdateSettingRequest, UpdateUserRequest};

verus! {

/// The text of the n-th positional parameter, for the few positions an
/// update statement can use.
pub open spec fn spec_param(n: int) -> Seq<char> {
    if n == 1 {
        "$1"@
    } else if n == 2 {
        "$2"@
    } else if n == 3 {
        "$3"@
    } else {
        "$4"@
    }
}

/// The exec side of `spec_param`.
fn param(n: usize) -> (r: &'static str)
    requires
        1 <= n <= 4,
    ensures
        r@ == spec_param(n as int),
{
    match n {
        1 => "$1",
        2 => "$2",
        3 => "$3",
        _ => "$4",
    }
}

/// The text of the user-row update statement for a request.
pub open spec fn spec_update_user_query(req: UpdateUserRequest) -> Seq<char> {
    let q0 = "UPDATE users SET updated_at = NOW()"@;
    let q1 = if req.display_name is Some {
        q0 + ", display_name = "@ + spec_param(1)
    } else {
        q0
    };
    let n1: int = if req.display_name is Some {
        2
    } else {
        1
    };
    let q2 = if req.profile_picture is Some {
        q1 + ", profile_picture = "@ + spec_param(n1)
    } else {
        q1
    };
    let n2: int = if req.profile_picture is Some {
        n1 + 1
    } else {
        n1
    };
    let q3 = if req.description is Some {
        q2 + ", description = "@ + spec_param(n2)
    } else {
        q2
    };
    let n3: int = if req.description is Some {
        n2 + 1
    } else {
        n2
    };
    q3 + " WHERE sub = "@ + spec_param(n3)
        + " RETURNING sub, display_name, profile_picture, description, created_at, updated_at"@
}

/// The values bound to the user-row update statement, in parameter order.
pub open spec fn spec_update_user_bindings(req: UpdateUserRequest) -> Seq<String> {
    let b1 = if req.display_name is Some {
        seq![req.display_name->Some_0]
    } else {
        Seq::empty()
    };
    let b2 = if req.profile_picture is Some {
        b1.push(req.profile_picture->Some_0)
    } else {
        b1
    };
    if req.description is Some {
        b2.push(req.description->Some_0)
    } else {
        b2
    }
}

/// Builds the user-row update statement and its bindings; the subject the
/// row is selected by binds as the last parameter, after these.
pub fn update_user_query(req: &UpdateUserRequest) -> (r: (String, Vec<String>))
    ensures
        r.0@ == spec_update_user_query(*req),
        r.1@ == spec_update_user_bindings(*req),
{
    let mut query = String::from_str("UPDATE users SET updated_at = NOW()");
    let mut bindings: Vec<String> = Vec::new();
    let mut count: usize = 1;
    if let Some(d) = &req.display_name {
        query.append(", display_name = ");
        query.append(param(count));
        bindings.push(d.clone());
        count += 1;
    }
    if let Some(p) = &req.profile_picture {
        query.append(", profile_picture = ");
        query.append(param(count));
        bindings.push(p.clone());
        count += 1;
    }
    if let Some(d) = &req.description {
        query.append(", description = ");
        query.append(param(count));
        bindings.push(d.clone());
        count += 1;
    }
    query.append(" WHERE sub = ");
    query.append(param(count));
    query.append(
        " RETURNING sub, display_name, profile_picture, description, created_at, updated_at",
    );
    (query, bindings)
}

/// The text of the settings-row update statement for a request.
pub open spec fn spec_update_setting_query(req: UpdateSettingRequest) -> Seq<char> {
    let q0 = "UPDATE param SET updated_at = NOW()"@;
    let q1 = if req.theme is Some {
        q0 + ", theme = "@ + spec_param(1)
    } else {
        q0
    };
    let n1: int = if req.theme is Some {
        2
    } else {
        1
    };
    let q2 = if req.lang is Some {
        q1 + ", lang = "@ + spec_param(n1)
    } else {
        q1
    };
    let n2: int = if req.lang is Some {
        n1 + 1
    } else {
        n1
    };
    q2 + " WHERE sub = "@ + spec_param(n2)
        + " RETURNING sub, theme, lang, created_at, updated_at"@
}

/// The values bound to the settings-row update statement, in parameter
/// order.
pub open spec fn spec_update_setting_bindings(req: UpdateSettingRequest) -> Seq<String> {
    let b1 = if req.theme is Some {
        seq![req.theme->Some_0]
    } else {
        Seq::empty()
    };
    if req.lang is Some {
        b1.push(req.lang->Some_0)
    } else {
        b1
    }
}

/// Builds the settings-row update statement and its bindings; the subject
/// binds as the last parameter, after these.
pub fn update_setting_query(req: &UpdateSettingRequest) -> (r: (String, Vec<String>))
    ensures
        r.0@ == spec_update_setting_query(*req),
        r.1@ == spec_update_setting_bindings(*req),
{
    let mut query = String::from_str("UPDATE param SET updated_at = NOW()");
    let mut bindings: Vec<String> = Vec::new();
    let mut count: usize = 1;
    if let Some(t) = &req.theme {
        query.append(", theme = ");
        query.append(param(count));
        bindings.push(t.clone());
        count += 1;
    }
    if let Some(l) = &req.lang {
        query.append(", lang = ");
        query.append(param(count));
        bindings.push(l.clone());
        count += 1;
    }
    query.append(" WHERE sub = ");
    query.append(param(count));
    query.append(" RETURNING sub, theme, lang, created_at, updated_at");
    (query, bindings)
}

} // verus!
