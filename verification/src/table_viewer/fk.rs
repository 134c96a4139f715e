use crate::database::query_result::ForeignKeyInfo;
use crate::database::query_result::ForeignKeyView;
use crate::database::query_result::QueryResult;
use crate::database::query_result::QueryResultView;
use crate::table_viewer::data::is_null_text;
use crate::table_viewer::data::TableViewer;
use crate::table_viewer::data::ViewerView;
use crate::table_viewer::statistics::text_is_null;
use vstd::prelude::*;

verus! {

broadcast use vstd::std_specs::hash::group_hash_axioms;

/// The rows that a foreign key of a cell points to, with the key itself.
#[derive(Debug)]
pub struct ForeignKeyLookupResult {
    pub foreign_key_info: ForeignKeyInfo,
    pub lookup_data: QueryResult,
}

/// The mathematical content of a [`ForeignKeyLookupResult`].
pub ghost struct LookupView {
    pub foreign_key_info: ForeignKeyView,
    pub lookup_data: QueryResultView,
}

impl View for ForeignKeyLookupResult {
    type V = LookupView;

    open spec fn view(&self) -> LookupView {
        LookupView { foreign_key_info: self.foreign_key_info@, lookup_data: self.lookup_data@ }
    }
}

/// What to ask the database for, to follow the foreign key of a cell: the
/// name of the cell's column and the cell's value.
#[derive(Debug)]
pub struct ForeignKeyRequest {
    pub column: String,
    pub value: String,
}

/// The mathematical content of a [`ForeignKeyRequest`].
pub ghost struct RequestView {
    pub column: Seq<char>,
    pub value: Seq<char>,
}

impl View for ForeignKeyRequest {
    type V = RequestView;

    open spec fn view(&self) -> RequestView {
        RequestView { column: self.column@, value: self.value@ }
    }
}

/// The view of an optional request.
pub open spec fn request_view(r: Option<ForeignKeyRequest>) -> Option<RequestView> {
    match r {
        Some(q) => Some(q@),
        None => None,
    }
}

impl ViewerView {
    /// What to ask the database for, to follow the cell under the cursor:
    /// its column and value, where the cursor stands on a cell of a named
    /// column and the cell is not null.
    pub open spec fn key_request(self) -> Option<RequestView> {
        match (self.current_cell(), self.current_header()) {
            (Some(value), Some(column)) => if is_null_text(value) {
                None
            } else {
                Some(RequestView { column, value })
            },
            _ => None,
        }
    }

    /// What to ask the database for, to describe the foreign key of the cell
    /// under the cursor: as [`Self::key_request`], and only where the column
    /// is known to be a foreign key.
    pub open spec fn key_info_request(self) -> Option<RequestView> {
        if self.foreign_keys.contains_key(self.current_col) {
            self.key_request()
        } else {
            None
        }
    }
}

impl TableViewer {
    /// What to ask the database for, to describe the foreign key of the cell
    /// under the cursor; nothing where the cell is null or its column no
    /// foreign key.
    pub fn lookup_foreign_key_info(&self) -> (r: Option<ForeignKeyRequest>)
        ensures
            request_view(r) == self@.key_info_request(),
    {
        if self.foreign_keys.get(&self.current_col).is_some() {
            self.lookup_foreign_key()
        } else {
            None
        }
    }

    /// What to ask the database for, to follow the cell under the cursor;
    /// nothing where there is no such cell or it is null.
    pub fn lookup_foreign_key(&self) -> (r: Option<ForeignKeyRequest>)
        ensures
            request_view(r) == self@.key_request(),
    {
        let current_cell_value = self.get_current_cell_value();
        let header_name = if self.current_col < self.data.headers.len() {
            assert(self@.data.headers[self.current_col as int]
                == self.data.headers@[self.current_col as int]@);
            Some(self.data.headers[self.current_col].clone())
        } else {
            None
        };
        match (current_cell_value, header_name) {
            (Some(value), Some(header)) => {
                if text_is_null(value.as_str()) {
                    None
                } else {
                    Some(ForeignKeyRequest { column: header, value })
                }
            },
            _ => None,
        }
    }
}

} // verus!
