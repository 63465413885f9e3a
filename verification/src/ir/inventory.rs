//! What a native library offers: free symbols, and custom types with
//! their methods.
use vstd::prelude::*;
use crate::ir::{Symbol, SymbolView};

verus! {

/// A custom type of the native library with its methods.
#[derive(Debug)]
pub struct Struct {
    pub name: String,
    pub methods: Vec<Symbol>,
}

/// One entry of the inventory.
#[derive(Debug)]
pub enum Inventory {
    Symbol(Symbol),
    Struct(Struct),
}

/// The mathematical value of an [`Inventory`] entry.
pub ghost enum InventoryView {
    Symbol(SymbolView),
    Struct { name: Seq<char>, methods: Seq<SymbolView> },
}

/// Symbols in a list, each by its value.
pub open spec fn symbol_views(symbols: Seq<Symbol>) -> Seq<SymbolView> {
    Seq::new(symbols.len(), |i: int| symbols[i]@)
}

impl View for Inventory {
    type V = InventoryView;

    open spec fn view(&self) -> InventoryView {
        match self {
            Inventory::Symbol(symbol) => InventoryView::Symbol(symbol@),
            Inventory::Struct(s) => InventoryView::Struct {
                name: s.name@,
                methods: symbol_views(s.methods@),
            },
        }
    }
}

/// Entries in a list, each by its value.
pub open spec fn inventory_views(entries: Seq<Inventory>) -> Seq<InventoryView> {
    Seq::new(entries.len(), |i: int| entries[i]@)
}

} // verus!
