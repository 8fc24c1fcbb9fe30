//! What each endpoint of a node decides and answers.
//!
//!   GET  /health            → [`health`]
//!   GET  /clientes          → [`listar_clientes`]
//!   POST /clientes          → [`criar_cliente`], then [`concluir_criacao_cliente`]
//!   GET  /pedidos           → [`listar_pedidos`]
//!   POST /pedidos           → [`criar_pedido`], then [`concluir_criacao_pedido`]
//!   POST /interno/replicar  → [`replicar`]
//!   POST /admin/falha       → [`simular_falha`]
//!
//! A write on the primary is split in two: the first step builds the record
//! and says whether it must first be sent to the backup; the second step
//! takes how that replication ended and stores the record only when the
//! backup acknowledged it.

use vstd::prelude::*;
use crate::externos::{agora, eh_uuid_v4, novo_id};
use crate::models::{
    AckResposta, ApiResposta, Cliente, ClienteView, CriarClienteDto, CriarPedidoDto,
    DadosReplicacao, Instante, Pedido, PedidoStatus, PedidoView, ReplicacaoPayload,
};
use crate::storage::{Storage, StorageView};
use crate::tabela::{enumera, ordenada};
use crate::texto::{concatenar, mesmo_texto};

verus! {

/// The state shared by the handlers of one node.
pub struct AppState {
    /// The records held in memory.
    pub storage: Storage,
    /// This node's role: `"primario"` or `"backup"`.
    pub role: String,
    /// The backup's base URL; `None` on the backup itself.
    pub backup_url: Option<String>,
    /// `false` once a failure has been simulated.
    pub alive: bool,
}

/// The text of an optional string.
pub open spec fn texto_opcional(o: Option<String>) -> Option<Seq<char>> {
    match o {
        Some(s) => Some(s@),
        None => None,
    }
}

/// What a node's state is.
pub struct AppStateView {
    pub storage: StorageView,
    pub role: Seq<char>,
    pub backup_url: Option<Seq<char>>,
    pub alive: bool,
}

impl View for AppState {
    type V = AppStateView;

    open spec fn view(&self) -> AppStateView {
        AppStateView {
            storage: self.storage@,
            role: self.role@,
            backup_url: texto_opcional(self.backup_url),
            alive: self.alive,
        }
    }
}

impl AppState {
    /// A live node with the given role and backup, storing nothing yet.
    pub fn new(role: String, backup_url: Option<String>) -> (r: AppState)
        ensures
            r@ == (AppStateView {
                storage: StorageView::vazio(),
                role: role@,
                backup_url: texto_opcional(backup_url),
                alive: true,
            }),
    {
        AppState { storage: Storage::new(), role, backup_url, alive: true }
    }
}

/// An HTTP status code and the body that goes with it.
pub struct Resposta<T> {
    pub codigo: u16,
    pub corpo: ApiResposta<T>,
}

/// A handler took node `antes` to `depois` by changing at most what it
/// stores, or by simulating a failure: no handler changes the node's role or
/// backup, and none brings a failed node back to life.
pub open spec fn passo_do_no(antes: AppStateView, depois: AppStateView) -> bool {
    ||| depois == AppStateView { storage: depois.storage, ..antes }
    ||| depois == AppStateView { alive: false, ..antes }
}

/// The node is the primary: every write it confirms must first reach the
/// backup.
pub open spec fn exige_backup(v: AppStateView) -> bool {
    v.role == "primario"@
}

/// The node is the primary and knows its backup: it sends every write there
/// first.
pub open spec fn deve_replicar(v: AppStateView) -> bool {
    exige_backup(v) && v.backup_url is Some
}

// ─── Health Check ───────────────────────────────────────────────────────────

/// The answer of the health check.
pub struct RespostaSaude {
    /// 200 while the node is alive, 503 once a failure was simulated.
    pub codigo: u16,
    pub status: String,
    pub no: String,
    /// The time of the check, given only while the node is alive.
    pub timestamp: Option<Instante>,
}

/// The status code of the health check for a node in state `v`.
pub open spec fn codigo_saude(v: AppStateView) -> u16 {
    if v.alive {
        200
    } else {
        503
    }
}

/// The health answer of live node `no`, checked at `momento`.
pub fn saude_viva(no: &str, momento: Instante) -> (r: RespostaSaude)
    ensures
        r.codigo == 200,
        r.status@ == "ok"@,
        r.no@ == no@,
        r.timestamp == Some(momento),
{
    RespostaSaude {
        codigo: 200,
        status: String::from_str("ok"),
        no: String::from_str(no),
        timestamp: Some(momento),
    }
}

/// The health answer of node `no` after a simulated failure.
pub fn saude_em_falha(no: &str) -> (r: RespostaSaude)
    ensures
        r.codigo == 503,
        r.status@ == "falha simulada"@,
        r.no@ == no@,
        r.timestamp is None,
{
    RespostaSaude {
        codigo: 503,
        status: String::from_str("falha simulada"),
        no: String::from_str(no),
        timestamp: None,
    }
}

/// `GET /health`: 200 and `"ok"` with the current time (the answer of
/// [`saude_viva`] for the clock's reading) while the node is alive; 503 and
/// `"falha simulada"` once a failure was simulated. Only while the node is
/// alive is the clock read.
pub fn health(estado: &AppState) -> (r: RespostaSaude)
    ensures
        r.codigo == codigo_saude(estado@),
        estado.alive ==> r.codigo == 200,
        !estado.alive ==> r.codigo == 503,
        r.no@ == estado.role@,
        estado.alive ==> r.status@ == "ok"@ && r.timestamp is Some,
        !estado.alive ==> r.status@ == "falha simulada"@ && r.timestamp is None,
        r.timestamp matches Some(t) ==> t.segundos >= 0 && t.nanos < 1_000_000_000,
{
    if estado.alive {
        saude_viva(estado.role.as_str(), agora())
    } else {
        saude_em_falha(estado.role.as_str())
    }
}

// ─── Replicação (lado do primário) ──────────────────────────────────────────

/// A write that must reach the backup before it is confirmed.
pub struct EnvioReplicacao {
    pub backup_url: String,
    pub payload: ReplicacaoPayload,
}

/// What a write needs before it can be confirmed.
pub enum Replicacao {
    /// Nothing: this node is not the primary.
    Dispensada,
    /// The backup's acknowledgement of this write.
    Enviar(EnvioReplicacao),
    /// The primary knows no backup: the write cannot be confirmed.
    SemBackup,
}

/// A record built by a write request, and what it needs before it is
/// confirmed.
pub struct PlanoCriacao<T> {
    pub registro: T,
    pub replicacao: Replicacao,
}

/// `r` is what node `v` needs before confirming a write of kind `operacao`
/// whose record satisfies `dados`: sending it to its own backup when it
/// must replicate, nothing when it is not the primary, and a failure when it
/// is the primary without a backup.
pub open spec fn replicacao_planejada(
    v: AppStateView,
    r: Replicacao,
    operacao: Seq<char>,
    dados: spec_fn(DadosReplicacao) -> bool,
) -> bool {
    match r {
        Replicacao::Enviar(envio) => {
            &&& deve_replicar(v)
            &&& v.backup_url == Some(envio.backup_url@)
            &&& envio.payload.operacao@ == operacao
            &&& dados(envio.payload.dados)
        },
        Replicacao::SemBackup => exige_backup(v) && v.backup_url is None,
        Replicacao::Dispensada => !exige_backup(v),
    }
}

/// What node `estado` needs before it confirms the write carried by
/// `payload`.
pub fn planejar_replicacao(estado: &AppState, payload: ReplicacaoPayload) -> (r: Replicacao)
    ensures
        match r {
            Replicacao::Enviar(envio) => {
                &&& deve_replicar(estado@)
                &&& estado@.backup_url == Some(envio.backup_url@)
                &&& envio.payload == payload
            },
            Replicacao::SemBackup => exige_backup(estado@) && estado@.backup_url is None,
            Replicacao::Dispensada => !exige_backup(estado@),
        },
{
    if mesmo_texto(estado.role.as_str(), "primario") {
        match &estado.backup_url {
            Some(u) => Replicacao::Enviar(EnvioReplicacao { backup_url: u.clone(), payload }),
            None => Replicacao::SemBackup,
        }
    } else {
        Replicacao::Dispensada
    }
}

/// How the replication of a write on node `v` ended, given its plan `r`
/// and, when the write was sent, the outcome of sending it: `Ok` when the
/// write may be confirmed, otherwise why not. A node that is not the primary
/// confirms its writes; the primary confirms one only when it knows a backup,
/// the plan sent the write there and the sending ended `Ok`.
pub open spec fn desfecho(v: AppStateView, r: Replicacao, envio: Option<Result<(), String>>) -> Result<
    (),
    Seq<char>,
> {
    if !exige_backup(v) {
        Ok(())
    } else if v.backup_url is None {
        Err("backup não configurado"@)
    } else {
        match r {
            Replicacao::Enviar(_) => match envio {
                Some(Ok(_)) => Ok(()),
                Some(Err(e)) => Err(e@),
                None => Err("replicação não realizada"@),
            },
            _ => Err("replicação não realizada"@),
        }
    }
}

/// How the replication of a write on node `estado` ended (see
/// [`desfecho`]).
pub fn desfecho_replicacao(
    estado: &AppState,
    r: &Replicacao,
    envio: Option<Result<(), String>>,
) -> (res: Result<(), String>)
    ensures
        match (res, desfecho(estado@, *r, envio)) {
            (Ok(_), Ok(_)) => true,
            (Err(a), Err(b)) => a@ == b,
            _ => false,
        },
        estado@.role != "primario"@ ==> res is Ok,
        estado@.role == "primario"@ ==> (res is Ok <==> (estado.backup_url is Some
            && *r is Enviar && envio matches Some(Ok(_)))),
{
    if !mesmo_texto(estado.role.as_str(), "primario") {
        Ok(())
    } else if estado.backup_url.is_none() {
        Err(String::from_str("backup não configurado"))
    } else {
        match r {
            Replicacao::Enviar(_) => match envio {
                Some(Ok(())) => Ok(()),
                Some(Err(e)) => Err(e),
                None => Err(String::from_str("replicação não realizada")),
            },
            _ => Err(String::from_str("replicação não realizada")),
        }
    }
}

/// The storage after the second step of a write: the record is stored only
/// when the write may be confirmed.
pub open spec fn storage_apos_conclusao<T>(
    s: StorageView,
    fim: Result<(), T>,
    gravar: spec_fn(StorageView) -> StorageView,
) -> StorageView {
    if fim is Ok {
        gravar(s)
    } else {
        s
    }
}

// ─── Clientes ───────────────────────────────────────────────────────────────

/// Every client, ordered by creation time.
pub fn listar_clientes(estado: &AppState) -> (r: ApiResposta<Vec<Cliente>>)
    ensures
        r.sucesso,
        r.mensagem@ == "OK"@,
        r.no@ == estado.role@,
        r.dados matches Some(lista) && ordenada(lista@) && enumera(lista@, estado@.storage.clientes),
        estado@.storage.clientes.dom().finite(),
{
    let clientes = estado.storage.listar_clientes();
    ApiResposta::ok(clientes, "OK", estado.role.as_str())
}

/// The client that a request creates, given its id and creation time.
pub fn montar_cliente(dto: CriarClienteDto, id: String, criado_em: Instante) -> (r: Cliente)
    ensures
        r@ == (ClienteView { id: id@, nome: dto.nome@, email: dto.email@, criado_em }),
{
    Cliente { id, nome: dto.nome, email: dto.email, criado_em }
}

/// First step of `POST /clientes`: builds the client with a fresh id and the
/// current time, and plans what it needs before it is confirmed.
pub fn criar_cliente(estado: &AppState, dto: CriarClienteDto) -> (r: PlanoCriacao<Cliente>)
    ensures
        r.registro.nome@ == dto.nome@,
        r.registro.email@ == dto.email@,
        eh_uuid_v4(r.registro.id@),
        r.registro.criado_em.segundos >= 0,
        r.registro.criado_em.nanos < 1_000_000_000,
        replicacao_planejada(
            estado@,
            r.replicacao,
            "criar_cliente"@,
            |d: DadosReplicacao| d matches DadosReplicacao::Cliente(c) && c@ == r.registro@,
        ),
{
    let cliente = montar_cliente(dto, novo_id(), agora());
    let payload = ReplicacaoPayload {
        operacao: String::from_str("criar_cliente"),
        dados: DadosReplicacao::Cliente(cliente.clone()),
    };
    let replicacao = planejar_replicacao(estado, payload);
    PlanoCriacao { registro: cliente, replicacao }
}

/// Second step of `POST /clientes`. `envio` is the outcome of sending the
/// write to the backup, when the plan asked for it. When the write may be
/// confirmed (see [`desfecho`]: on the primary, only after the backup's
/// acknowledgement) the client is stored and the answer is 201;
/// otherwise nothing is stored and the answer is 503 with the reason.
pub fn concluir_criacao_cliente(
    estado: &mut AppState,
    plano: PlanoCriacao<Cliente>,
    envio: Option<Result<(), String>>,
) -> (r: Result<Resposta<Cliente>, Resposta<()>>)
    ensures
        passo_do_no(old(estado)@, final(estado)@),
        old(estado)@.role != "primario"@ ==> r is Ok && final(estado)@.storage == old(
            estado,
        )@.storage.com_cliente(plano.registro@),
        old(estado)@.role == "primario"@ && !(old(estado).backup_url is Some
            && plano.replicacao is Enviar && envio matches Some(Ok(_))) ==> r is Err
            && final(estado)@.storage == old(estado)@.storage,
        final(estado)@ == (AppStateView {
            storage: storage_apos_conclusao(
                old(estado)@.storage,
                desfecho(old(estado)@, plano.replicacao, envio),
                |s: StorageView| s.com_cliente(plano.registro@),
            ),
            ..old(estado)@
        }),
        match desfecho(old(estado)@, plano.replicacao, envio) {
            Ok(_) => r matches Ok(resp) && resp.codigo == 201 && resp.corpo.sucesso
                && resp.corpo.dados == Some(plano.registro) && resp.corpo.mensagem@
                == "Cliente criado"@ && resp.corpo.no@ == old(estado).role@,
            Err(e) => r matches Err(resp) && resp.codigo == 503 && !resp.corpo.sucesso
                && resp.corpo.dados is None
                && resp.corpo.mensagem@ == "Replicação falhou — consistência não garantida: "@
                + e && resp.corpo.no@ == old(estado).role@,
        },
{
    let PlanoCriacao { registro: cliente, replicacao } = plano;
    match desfecho_replicacao(estado, &replicacao, envio) {
        Err(e) => {
            let msg = concatenar("Replicação falhou — consistência não garantida: ", e.as_str());
            let corpo = ApiResposta::<()>::erro(msg.as_str(), estado.role.as_str());
            Err(Resposta { codigo: 503, corpo })
        },
        Ok(()) => {
            estado.storage.inserir_cliente(cliente.clone());
            let corpo = ApiResposta::ok(cliente, "Cliente criado", estado.role.as_str());
            Ok(Resposta { codigo: 201, corpo })
        },
    }
}

// ─── Pedidos ────────────────────────────────────────────────────────────────

/// Every order, ordered by creation time.
pub fn listar_pedidos(estado: &AppState) -> (r: ApiResposta<Vec<Pedido>>)
    ensures
        r.sucesso,
        r.mensagem@ == "OK"@,
        r.no@ == estado.role@,
        r.dados matches Some(lista) && ordenada(lista@) && enumera(lista@, estado@.storage.pedidos),
        estado@.storage.pedidos.dom().finite(),
{
    let pedidos = estado.storage.listar_pedidos();
    ApiResposta::ok(pedidos, "OK", estado.role.as_str())
}

/// The order that a request creates, given its id and creation time: it
/// starts out pending.
pub fn montar_pedido(dto: CriarPedidoDto, id: String, criado_em: Instante) -> (r: Pedido)
    ensures
        r@ == (PedidoView {
            id: id@,
            cliente_id: dto.cliente_id@,
            descricao: dto.descricao@,
            valor_bits: dto.valor_bits,
            status: PedidoStatus::Pendente,
            criado_em,
        }),
{
    Pedido {
        id,
        cliente_id: dto.cliente_id,
        descricao: dto.descricao,
        valor_bits: dto.valor_bits,
        status: PedidoStatus::Pendente,
        criado_em,
    }
}

/// First step of `POST /pedidos`: an order for a client that is not stored
/// is answered 404 and nothing else happens; otherwise builds the pending
/// order with a fresh id and the current time, and plans its replication.
pub fn criar_pedido(estado: &AppState, dto: CriarPedidoDto) -> (r: Result<
    PlanoCriacao<Pedido>,
    Resposta<()>,
>)
    ensures
        match r {
            Err(resp) => {
                &&& !estado@.storage.clientes.contains_key(dto.cliente_id@)
                &&& resp.codigo == 404
                &&& !resp.corpo.sucesso
                &&& resp.corpo.dados is None
                &&& resp.corpo.mensagem@ == "Cliente não encontrado"@
                &&& resp.corpo.no@ == estado.role@
            },
            Ok(plano) => {
                &&& estado@.storage.clientes.contains_key(dto.cliente_id@)
                &&& plano.registro.cliente_id@ == dto.cliente_id@
                &&& plano.registro.descricao@ == dto.descricao@
                &&& plano.registro.valor_bits == dto.valor_bits
                &&& plano.registro.status == PedidoStatus::Pendente
                &&& eh_uuid_v4(plano.registro.id@)
                &&& plano.registro.criado_em.segundos >= 0
                &&& plano.registro.criado_em.nanos < 1_000_000_000
                &&& replicacao_planejada(
                    estado@,
                    plano.replicacao,
                    "criar_pedido"@,
                    |d: DadosReplicacao| d matches DadosReplicacao::Pedido(p) && p@ == plano.registro@,
                )
            },
        },
{
    if estado.storage.buscar_cliente(dto.cliente_id.as_str()).is_none() {
        let corpo = ApiResposta::<()>::erro("Cliente não encontrado", estado.role.as_str());
        return Err(Resposta { codigo: 404, corpo });
    }
    let pedido = montar_pedido(dto, novo_id(), agora());
    let payload = ReplicacaoPayload {
        operacao: String::from_str("criar_pedido"),
        dados: DadosReplicacao::Pedido(pedido.clone()),
    };
    let replicacao = planejar_replicacao(estado, payload);
    Ok(PlanoCriacao { registro: pedido, replicacao })
}

/// Second step of `POST /pedidos`. `envio` is the outcome of sending the
/// write to the backup, when the plan asked for it. When the write may be
/// confirmed (see [`desfecho`]: on the primary, only after the backup's
/// acknowledgement) the order is stored and the answer is 201;
/// otherwise nothing is stored and the answer is 503 with the reason.
pub fn concluir_criacao_pedido(
    estado: &mut AppState,
    plano: PlanoCriacao<Pedido>,
    envio: Option<Result<(), String>>,
) -> (r: Result<Resposta<Pedido>, Resposta<()>>)
    ensures
        passo_do_no(old(estado)@, final(estado)@),
        old(estado)@.role != "primario"@ ==> r is Ok && final(estado)@.storage == old(
            estado,
        )@.storage.com_pedido(plano.registro@),
        old(estado)@.role == "primario"@ && !(old(estado).backup_url is Some
            && plano.replicacao is Enviar && envio matches Some(Ok(_))) ==> r is Err
            && final(estado)@.storage == old(estado)@.storage,
        final(estado)@ == (AppStateView {
            storage: storage_apos_conclusao(
                old(estado)@.storage,
                desfecho(old(estado)@, plano.replicacao, envio),
                |s: StorageView| s.com_pedido(plano.registro@),
            ),
            ..old(estado)@
        }),
        match desfecho(old(estado)@, plano.replicacao, envio) {
            Ok(_) => r matches Ok(resp) && resp.codigo == 201 && resp.corpo.sucesso
                && resp.corpo.dados == Some(plano.registro) && resp.corpo.mensagem@
                == "Pedido criado"@ && resp.corpo.no@ == old(estado).role@,
            Err(e) => r matches Err(resp) && resp.codigo == 503 && !resp.corpo.sucesso
                && resp.corpo.dados is None
                && resp.corpo.mensagem@ == "Replicação falhou: "@ + e && resp.corpo.no@ == old(
                estado,
            ).role@,
        },
{
    let PlanoCriacao { registro: pedido, replicacao } = plano;
    match desfecho_replicacao(estado, &replicacao, envio) {
        Err(e) => {
            let msg = concatenar("Replicação falhou: ", e.as_str());
            let corpo = ApiResposta::<()>::erro(msg.as_str(), estado.role.as_str());
            Err(Resposta { codigo: 503, corpo })
        },
        Ok(()) => {
            estado.storage.inserir_pedido(pedido.clone());
            let corpo = ApiResposta::ok(pedido, "Pedido criado", estado.role.as_str());
            Ok(Resposta { codigo: 201, corpo })
        },
    }
}

// ─── Replicação interna (lado do backup) ────────────────────────────────────

/// The backup's answer to a replicated write: a status code and the ack.
pub struct RespostaAck {
    pub codigo: u16,
    pub ack: AckResposta,
}

/// The two kinds of replicated write have different names.
pub proof fn lema_operacoes_distintas()
    ensures
        "criar_cliente"@ != "criar_pedido"@,
{
    reveal_strlit("criar_cliente");
    reveal_strlit("criar_pedido");
    assert("criar_cliente"@[6] != "criar_pedido"@[6]);
}

/// Whether the backup accepts a replicated write of kind `operacao` whose
/// data, read as a client and as an order, gave `como_cliente` and
/// `como_pedido`.
pub open spec fn replicacao_aceita(
    operacao: Seq<char>,
    como_cliente: Result<Cliente, String>,
    como_pedido: Result<Pedido, String>,
) -> bool {
    ||| operacao == "criar_cliente"@ && como_cliente is Ok
    ||| operacao == "criar_pedido"@ && como_pedido is Ok
}

/// The backup's storage after a replicated write.
pub open spec fn storage_apos_replicacao(
    s: StorageView,
    operacao: Seq<char>,
    como_cliente: Result<Cliente, String>,
    como_pedido: Result<Pedido, String>,
) -> StorageView {
    if operacao == "criar_cliente"@ {
        match como_cliente {
            Ok(c) => s.com_cliente(c@),
            Err(_) => s,
        }
    } else if operacao == "criar_pedido"@ {
        match como_pedido {
            Ok(p) => s.com_pedido(p@),
            Err(_) => s,
        }
    } else {
        s
    }
}

/// `POST /interno/replicar` on the backup. `como_cliente` and `como_pedido`
/// are the payload's data read as a client and as an order (or the error
/// that reading gave); the kind of write picks which one counts. A readable
/// client or order is stored and acknowledged with 200; unreadable data or an
/// unknown kind is refused with 400 and stores nothing.
pub fn replicar(
    estado: &mut AppState,
    operacao: &str,
    como_cliente: Result<Cliente, String>,
    como_pedido: Result<Pedido, String>,
) -> (r: RespostaAck)
    ensures
        passo_do_no(old(estado)@, final(estado)@),
        final(estado)@ == (AppStateView {
            storage: storage_apos_replicacao(
                old(estado)@.storage,
                operacao@,
                como_cliente,
                como_pedido,
            ),
            ..old(estado)@
        }),
        r.ack.aceito == replicacao_aceita(operacao@, como_cliente, como_pedido),
        r.codigo == (if r.ack.aceito {
            200u16
        } else {
            400u16
        }),
        operacao@ == "criar_cliente"@ ==> match como_cliente {
            Ok(_) => r.ack.mensagem@ == "Cliente replicado com sucesso"@,
            Err(e) => r.ack.mensagem@ == "Payload inválido: "@ + e@,
        },
        operacao@ == "criar_pedido"@ ==> match como_pedido {
            Ok(_) => r.ack.mensagem@ == "Pedido replicado com sucesso"@,
            Err(e) => r.ack.mensagem@ == "Payload inválido: "@ + e@,
        },
        operacao@ != "criar_cliente"@ && operacao@ != "criar_pedido"@ ==> r.ack.mensagem@
            == "Operação desconhecida: "@ + operacao@,
{
    proof {
        lema_operacoes_distintas();
    }
    if mesmo_texto(operacao, "criar_cliente") {
        match como_cliente {
            Ok(c) => {
                estado.storage.inserir_cliente(c);
                RespostaAck {
                    codigo: 200,
                    ack: AckResposta {
                        aceito: true,
                        mensagem: String::from_str("Cliente replicado com sucesso"),
                    },
                }
            },
            Err(e) => RespostaAck {
                codigo: 400,
                ack: AckResposta {
                    aceito: false,
                    mensagem: concatenar("Payload inválido: ", e.as_str()),
                },
            },
        }
    } else if mesmo_texto(operacao, "criar_pedido") {
        match como_pedido {
            Ok(p) => {
                estado.storage.inserir_pedido(p);
                RespostaAck {
                    codigo: 200,
                    ack: AckResposta {
                        aceito: true,
                        mensagem: String::from_str("Pedido replicado com sucesso"),
                    },
                }
            },
            Err(e) => RespostaAck {
                codigo: 400,
                ack: AckResposta {
                    aceito: false,
                    mensagem: concatenar("Payload inválido: ", e.as_str()),
                },
            },
        }
    } else {
        RespostaAck {
            codigo: 400,
            ack: AckResposta {
                aceito: false,
                mensagem: concatenar("Operação desconhecida: ", operacao),
            },
        }
    }
}

// ─── Simulação de Falha ─────────────────────────────────────────────────────

/// The answer to a simulated failure.
pub struct RespostaFalha {
    pub mensagem: String,
    pub no: String,
}

/// `POST /admin/falha`: the node stops reporting itself alive; nothing else
/// changes.
pub fn simular_falha(estado: &mut AppState) -> (r: RespostaFalha)
    ensures
        passo_do_no(old(estado)@, final(estado)@),
        final(estado)@ == (AppStateView { alive: false, ..old(estado)@ }),
        r.mensagem@ == "Falha simulada. O Nginx irá redirecionar para o backup."@,
        r.no@ == old(estado).role@,
{
    estado.alive = false;
    RespostaFalha {
        mensagem: String::from_str("Falha simulada. O Nginx irá redirecionar para o backup."),
        no: estado.role.clone(),
    }
}

} // verus!
