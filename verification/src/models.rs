//! Data model: clients, orders, replication messages and API envelopes.

use vstd::prelude::*;

verus! {

// ─── Points in time ─────────────────────────────────────────────────────────

/// A UTC point in time: whole seconds since the Unix epoch and the
/// nanoseconds past that second (above 999_999_999 only inside a leap
/// second). Points in time are ordered by seconds, then by nanoseconds.
#[derive(Clone, Copy, Debug, PartialEq, Eq, Structural)]
pub struct Instante {
    pub segundos: i64,
    pub nanos: u32,
}

/// `a` is not later than `b`.
pub open spec fn instante_le(a: Instante, b: Instante) -> bool {
    a.segundos < b.segundos || (a.segundos == b.segundos && a.nanos <= b.nanos)
}

/// `instante_le` is chronological order: an earlier second comes first,
/// and within the same second the smaller nanosecond count comes first.
pub proof fn lei_ordem_cronologica(a: Instante, b: Instante)
    ensures
        a.segundos < b.segundos ==> instante_le(a, b) && !instante_le(b, a),
        a.segundos == b.segundos ==> (instante_le(a, b) <==> a.nanos <= b.nanos),
        instante_le(a, b) || instante_le(b, a),
        instante_le(a, b) && instante_le(b, a) ==> a == b,
{
}

impl Instante {
    /// Whether `self` is not later than `outro`.
    pub fn nao_depois_de(&self, outro: &Instante) -> (r: bool)
        ensures
            r == instante_le(*self, *outro),
            self.segundos < outro.segundos ==> r,
            outro.segundos < self.segundos ==> !r,
            self.segundos == outro.segundos ==> (r <==> self.nanos <= outro.nanos),
    {
        self.segundos < outro.segundos || (self.segundos == outro.segundos && self.nanos
            <= outro.nanos)
    }
}

// ─── Cliente ────────────────────────────────────────────────────────────────

/// A registered client.
#[derive(Debug)]
pub struct Cliente {
    pub id: String,
    pub nome: String,
    pub email: String,
    pub criado_em: Instante,
}

/// What a client is, as text and time.
pub struct ClienteView {
    pub id: Seq<char>,
    pub nome: Seq<char>,
    pub email: Seq<char>,
    pub criado_em: Instante,
}

impl View for Cliente {
    type V = ClienteView;

    open spec fn view(&self) -> ClienteView {
        ClienteView { id: self.id@, nome: self.nome@, email: self.email@, criado_em: self.criado_em }
    }
}

impl Clone for Cliente {
    fn clone(&self) -> (r: Self)
        ensures
            r == *self,
    {
        Cliente {
            id: self.id.clone(),
            nome: self.nome.clone(),
            email: self.email.clone(),
            criado_em: self.criado_em,
        }
    }
}

/// The body of a request that creates a client.
#[derive(Debug)]
pub struct CriarClienteDto {
    pub nome: String,
    pub email: String,
}

impl Clone for CriarClienteDto {
    fn clone(&self) -> (r: Self)
        ensures
            r == *self,
    {
        CriarClienteDto { nome: self.nome.clone(), email: self.email.clone() }
    }
}

// ─── Pedido ─────────────────────────────────────────────────────────────────

/// The state of an order.
#[derive(Clone, Copy, Debug, PartialEq, Eq, Structural)]
pub enum PedidoStatus {
    Pendente,
    Confirmado,
    Cancelado,
}

/// An order placed by a client. The amount is carried as the bit pattern of
/// an IEEE-754 double (`f64::to_bits`): the library stores and hands it back
/// without computing on it.
#[derive(Debug)]
pub struct Pedido {
    pub id: String,
    pub cliente_id: String,
    pub descricao: String,
    pub valor_bits: u64,
    pub status: PedidoStatus,
    pub criado_em: Instante,
}

/// What an order is, as text, numbers and time.
pub struct PedidoView {
    pub id: Seq<char>,
    pub cliente_id: Seq<char>,
    pub descricao: Seq<char>,
    pub valor_bits: u64,
    pub status: PedidoStatus,
    pub criado_em: Instante,
}

impl View for Pedido {
    type V = PedidoView;

    open spec fn view(&self) -> PedidoView {
        PedidoView {
            id: self.id@,
            cliente_id: self.cliente_id@,
            descricao: self.descricao@,
            valor_bits: self.valor_bits,
            status: self.status,
            criado_em: self.criado_em,
        }
    }
}

impl Clone for Pedido {
    fn clone(&self) -> (r: Self)
        ensures
            r == *self,
    {
        Pedido {
            id: self.id.clone(),
            cliente_id: self.cliente_id.clone(),
            descricao: self.descricao.clone(),
            valor_bits: self.valor_bits,
            status: self.status,
            criado_em: self.criado_em,
        }
    }
}

/// The body of a request that creates an order (amount as `f64` bits).
#[derive(Debug)]
pub struct CriarPedidoDto {
    pub cliente_id: String,
    pub descricao: String,
    pub valor_bits: u64,
}

impl Clone for CriarPedidoDto {
    fn clone(&self) -> (r: Self)
        ensures
            r == *self,
    {
        CriarPedidoDto {
            cliente_id: self.cliente_id.clone(),
            descricao: self.descricao.clone(),
            valor_bits: self.valor_bits,
        }
    }
}

// ─── Replicação ─────────────────────────────────────────────────────────────

/// The record that a write carries to the backup.
#[derive(Debug)]
pub enum DadosReplicacao {
    Cliente(Cliente),
    Pedido(Pedido),
}

/// What the primary sends to the backup: the kind of write
/// (`"criar_cliente"` or `"criar_pedido"`) and the record already built.
#[derive(Debug)]
pub struct ReplicacaoPayload {
    pub operacao: String,
    pub dados: DadosReplicacao,
}

/// The backup's answer to a replication request.
#[derive(Debug)]
pub struct AckResposta {
    pub aceito: bool,
    pub mensagem: String,
}

// ─── Resposta genérica da API ───────────────────────────────────────────────

/// The envelope of every API answer; `no` names the node that answered.
#[derive(Debug)]
pub struct ApiResposta<T> {
    pub sucesso: bool,
    pub dados: Option<T>,
    pub mensagem: String,
    pub no: String,
}

impl<T> ApiResposta<T> {
    /// A successful answer carrying `dados`.
    pub fn ok(dados: T, mensagem: &str, no: &str) -> (r: Self)
        ensures
            r.sucesso,
            r.dados == Some(dados),
            r.mensagem@ == mensagem@,
            r.no@ == no@,
    {
        ApiResposta {
            sucesso: true,
            dados: Some(dados),
            mensagem: mensagem.to_owned(),
            no: no.to_owned(),
        }
    }

    /// A failed answer with no data.
    pub fn erro(mensagem: &str, no: &str) -> (r: ApiResposta<()>)
        ensures
            !r.sucesso,
            r.dados.is_none(),
            r.mensagem@ == mensagem@,
            r.no@ == no@,
    {
        ApiResposta { sucesso: false, dados: None, mensagem: mensagem.to_owned(), no: no.to_owned() }
    }
}

} // verus!
