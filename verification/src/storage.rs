//! In-memory storage of a node: the clients and the orders, each keyed by id.

use vstd::prelude::*;
use crate::models::{Cliente, ClienteView, Instante, Pedido, PedidoView};
use crate::tabela::{Registro, Tabela, enumera, ordenada};

verus! {

impl Registro for Cliente {
    open spec fn chave(v: ClienteView) -> Seq<char> {
        v.id
    }

    open spec fn momento(v: ClienteView) -> Instante {
        v.criado_em
    }

    fn id_registro(&self) -> (r: &String) {
        &self.id
    }

    fn momento_registro(&self) -> (r: Instante) {
        self.criado_em
    }

    fn copia(&self) -> (r: Self) {
        self.clone()
    }
}

impl Registro for Pedido {
    open spec fn chave(v: PedidoView) -> Seq<char> {
        v.id
    }

    open spec fn momento(v: PedidoView) -> Instante {
        v.criado_em
    }

    fn id_registro(&self) -> (r: &String) {
        &self.id
    }

    fn momento_registro(&self) -> (r: Instante) {
        self.criado_em
    }

    fn copia(&self) -> (r: Self) {
        self.clone()
    }
}

/// What a node stores: clients and orders by id.
pub struct StorageView {
    pub clientes: Map<Seq<char>, ClienteView>,
    pub pedidos: Map<Seq<char>, PedidoView>,
}

impl StorageView {
    /// Nothing stored.
    pub open spec fn vazio() -> StorageView {
        StorageView { clientes: Map::empty(), pedidos: Map::empty() }
    }

    /// This storage after client `c` is stored under its id.
    pub open spec fn com_cliente(self, c: ClienteView) -> StorageView {
        StorageView { clientes: self.clientes.insert(c.id, c), pedidos: self.pedidos }
    }

    /// This storage after order `p` is stored under its id.
    pub open spec fn com_pedido(self, p: PedidoView) -> StorageView {
        StorageView { clientes: self.clientes, pedidos: self.pedidos.insert(p.id, p) }
    }
}

/// The clients and orders held in memory by one node.
pub struct Storage {
    pub clientes: Tabela<Cliente>,
    pub pedidos: Tabela<Pedido>,
}

impl View for Storage {
    type V = StorageView;

    open spec fn view(&self) -> StorageView {
        StorageView { clientes: self.clientes@, pedidos: self.pedidos@ }
    }
}

impl Storage {
    /// An empty storage.
    pub fn new() -> (r: Self)
        ensures
            r@ == StorageView::vazio(),
    {
        Storage { clientes: Tabela::new(), pedidos: Tabela::new() }
    }

    // ── Clientes ────────────────────────────────────────────────────────────

    /// Stores `cliente` under its id, replacing any client stored there.
    pub fn inserir_cliente(&mut self, cliente: Cliente)
        ensures
            final(self)@ == old(self)@.com_cliente(cliente@),
    {
        self.clientes.inserir(cliente);
    }

    /// Every client, ordered by creation time.
    pub fn listar_clientes(&self) -> (r: Vec<Cliente>)
        ensures
            ordenada(r@),
            enumera(r@, self@.clientes),
            self@.clientes.dom().finite(),
    {
        self.clientes.listar()
    }

    /// The client stored under `id`, if any.
    pub fn buscar_cliente(&self, id: &str) -> (r: Option<&Cliente>)
        ensures
            match r {
                Some(c) => self@.clientes.contains_key(id@) && c@ == self@.clientes[id@],
                None => !self@.clientes.contains_key(id@),
            },
    {
        self.clientes.buscar(id)
    }

    // ── Pedidos ─────────────────────────────────────────────────────────────

    /// Stores `pedido` under its id, replacing any order stored there.
    pub fn inserir_pedido(&mut self, pedido: Pedido)
        ensures
            final(self)@ == old(self)@.com_pedido(pedido@),
    {
        self.pedidos.inserir(pedido);
    }

    /// Every order, ordered by creation time.
    pub fn listar_pedidos(&self) -> (r: Vec<Pedido>)
        ensures
            ordenada(r@),
            enumera(r@, self@.pedidos),
            self@.pedidos.dom().finite(),
    {
        self.pedidos.listar()
    }
}

} // verus!
