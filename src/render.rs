use vstd::prelude::*;
use crate::text::{comma_joined, join_commas, views};

verus! {

/// What the store answers to a lookup: the grants of each application on the
/// resource, in the order the service sent them, and the debug form of the
/// resource's associated data.
pub struct LookupResponse {
    pub grants: Vec<(String, Vec<String>)>,
    pub data: String,
}

/// A successful reply of the store, one shape per operation.
pub enum Reply {
    /// A delete went through.
    Deleted,
    /// A set went through.
    Updated,
    /// The permissions of one application.
    Permissions(Vec<String>),
    /// The resource IDs of a table.
    ResourceIds(Vec<String>),
    /// The grants and data of one resource.
    Lookup(LookupResponse),
}

/// The text of a default comfy-table table with this header and these rows.
pub uninterp spec fn drawn_table(header: Seq<Seq<char>>, rows: Seq<Seq<Seq<char>>>) -> Seq<char>;

pub open spec fn row_views(rows: Seq<Vec<String>>) -> Seq<Seq<Seq<char>>> {
    rows.map_values(|r: Vec<String>| views(r@))
}

/// Relies on comfy_table::Table (`new`, `set_header`, `add_rows` and its
/// `Display`): a table with the default preset, no styling and arrangement
/// disabled, whose text depends on the header and the rows alone.
#[verifier::external_body]
fn draw_table(header: Vec<String>, rows: Vec<Vec<String>>) -> (r: String)
    ensures
        r@ == drawn_table(views(header@), row_views(rows@)),
{
    let mut table = comfy_table::Table::new();
    table.set_header(header);
    table.add_rows(rows);
    table.to_string()
}

/// One single-cell row per item, in order.
pub open spec fn single_cells(items: Seq<Seq<char>>) -> Seq<Seq<Seq<char>>> {
    items.map_values(|s: Seq<char>| seq![s])
}

/// A one-column table under `title`, one row per item, followed by a newline.
pub open spec fn column_text(title: Seq<char>, items: Seq<Seq<char>>) -> Seq<char> {
    drawn_table(seq![title], single_cells(items)) + "\n"@
}

/// The printed form of a permission list.
pub open spec fn permissions_text(perms: Seq<Seq<char>>) -> Seq<char> {
    column_text("Permission"@, perms)
}

/// The printed form of a list of resource IDs.
pub open spec fn resource_ids_text(ids: Seq<Seq<char>>) -> Seq<char> {
    column_text("Resource ID"@, ids)
}

/// The row of one application: its ID and its permissions joined by commas.
pub open spec fn grant_row(grant: (String, Vec<String>)) -> Seq<Seq<char>> {
    seq![grant.0@, comma_joined(views(grant.1@))]
}

/// The printed form of a lookup: the two-column table of grants, one row per
/// application in the given order, then the associated data.
pub open spec fn lookup_text(grants: Seq<(String, Vec<String>)>, data: Seq<char>) -> Seq<char> {
    drawn_table(seq!["AppID"@, "Permissions"@], grants.map_values(|g: (String, Vec<String>)| grant_row(g)))
        + "\n"@ + "associated data:\n"@ + data + "\n"@
}

/// The printed form of a reply.
pub open spec fn reply_text(reply: Reply) -> Seq<char> {
    match reply {
        Reply::Deleted => "Permissions deleted successfully\n"@,
        Reply::Updated => "Permissions set successfully\n"@,
        Reply::Permissions(p) => permissions_text(views(p@)),
        Reply::ResourceIds(ids) => resource_ids_text(views(ids@)),
        Reply::Lookup(l) => lookup_text(l.grants@, l.data@),
    }
}

/// Two grant lists with the same applications and permissions, in the same order.
pub open spec fn same_grants(a: Seq<(String, Vec<String>)>, b: Seq<(String, Vec<String>)>) -> bool {
    &&& a.len() == b.len()
    &&& forall|i: int| 0 <= i < a.len() ==> (#[trigger] a[i]).0@ == b[i].0@ && views(a[i].1@) == views(b[i].1@)
}

/// Rendering depends on the content alone: permission lists, resource-ID
/// lists or lookup results with the same strings in the same order print
/// the same text, each time they are rendered.
pub proof fn lemma_render_deterministic(
    perms_a: Seq<String>,
    perms_b: Seq<String>,
    grants_a: Seq<(String, Vec<String>)>,
    grants_b: Seq<(String, Vec<String>)>,
    data_a: Seq<char>,
    data_b: Seq<char>,
)
    ensures
        views(perms_a) == views(perms_b) ==> permissions_text(views(perms_a)) == permissions_text(views(perms_b))
            && resource_ids_text(views(perms_a)) == resource_ids_text(views(perms_b)),
        same_grants(grants_a, grants_b) && data_a == data_b ==> lookup_text(grants_a, data_a)
            == lookup_text(grants_b, data_b),
{
    if same_grants(grants_a, grants_b) {
        let row_of = |g: (String, Vec<String>)| grant_row(g);
        assert(grants_a.map_values(row_of) =~= grants_b.map_values(row_of));
    }
}

fn column(title: &str, items: &Vec<String>) -> (r: String)
    ensures
        r@ == column_text(title@, views(items@)),
{
    let header = vec![String::from_str(title)];
    let mut rows: Vec<Vec<String>> = Vec::new();
    let mut i: usize = 0;
    while i < items.len()
        invariant
            i <= items@.len(),
            rows@.len() == i,
            row_views(rows@) =~= single_cells(views(items@).take(i as int)),
        decreases items@.len() - i,
    {
        let ghost before = rows@;
        let mut row: Vec<String> = Vec::new();
        row.push(items[i].clone());
        rows.push(row);
        proof {
            let cells = single_cells(views(items@).take(i as int + 1));
            assert forall|j: int| 0 <= j < i + 1 implies row_views(rows@)[j] == cells[j] by {
                if j < i {
                    assert(rows@[j] == before[j]);
                    assert(row_views(before)[j] == single_cells(views(items@).take(i as int))[j]);
                } else {
                    assert(views(rows@[j]@) =~= seq![items@[j]@]);
                }
            }
        }
        i = i + 1;
    }
    assert(views(header@) =~= seq![title@]);
    assert(views(items@).take(items@.len() as int) =~= views(items@));
    let table = draw_table(header, rows);
    table.concat("\n")
}

/// The permission list of `get` as a one-column table, in the given order.
pub fn render_get_permission_response(response: &Vec<String>) -> (r: String)
    ensures
        r@ == permissions_text(views(response@)),
{
    column("Permission", response)
}

/// The resource IDs of `list` as a one-column table, in the given order.
pub fn render_list_response(response: &Vec<String>) -> (r: String)
    ensures
        r@ == resource_ids_text(views(response@)),
{
    column("Resource ID", response)
}

/// A lookup result as a table of applications and their permissions, in the
/// given order, followed by the associated data.
pub fn render_lookup_response(response: &LookupResponse) -> (r: String)
    ensures
        r@ == lookup_text(response.grants@, response.data@),
{
    let header = vec![String::from_str("AppID"), String::from_str("Permissions")];
    let mut rows: Vec<Vec<String>> = Vec::new();
    let ghost row_of = |g: (String, Vec<String>)| grant_row(g);
    let mut i: usize = 0;
    while i < response.grants.len()
        invariant
            i <= response.grants@.len(),
            rows@.len() == i,
            row_of == (|g: (String, Vec<String>)| grant_row(g)),
            row_views(rows@) =~= response.grants@.take(i as int).map_values(row_of),
        decreases response.grants@.len() - i,
    {
        let app = response.grants[i].0.clone();
        let allowed = join_commas(&response.grants[i].1);
        let ghost before = rows@;
        let mut row: Vec<String> = Vec::new();
        row.push(app);
        row.push(allowed);
        rows.push(row);
        proof {
            let cells = response.grants@.take(i as int + 1).map_values(row_of);
            assert forall|j: int| 0 <= j < i + 1 implies row_views(rows@)[j] == cells[j] by {
                if j < i {
                    assert(rows@[j] == before[j]);
                    assert(row_views(before)[j] == response.grants@.take(i as int).map_values(row_of)[j]);
                } else {
                    assert(views(rows@[j]@) =~= grant_row(response.grants@[j]));
                }
            }
        }
        i = i + 1;
    }
    assert(response.grants@.take(response.grants@.len() as int) =~= response.grants@);
    assert(views(header@) =~= seq!["AppID"@, "Permissions"@]);
    let table = draw_table(header, rows);
    let r = table.concat("\n").concat("associated data:\n").concat(response.data.as_str());
    r.concat("\n")
}

/// The text printed for a successful reply.
pub fn render(reply: &Reply) -> (r: String)
    ensures
        r@ == reply_text(*reply),
{
    match reply {
        Reply::Deleted => String::from_str("Permissions deleted successfully\n"),
        Reply::Updated => String::from_str("Permissions set successfully\n"),
        Reply::Permissions(p) => render_get_permission_response(p),
        Reply::ResourceIds(ids) => render_list_response(ids),
        Reply::Lookup(l) => render_lookup_response(l),
    }
}

} // verus!
