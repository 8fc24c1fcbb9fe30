//! Properties of the service that span several operations.

use vstd::prelude::*;
use crate::api::{
    AppStateView, Replicacao, codigo_saude, desfecho, deve_replicar, exige_backup, passo_do_no,
    lema_operacoes_distintas, replicacao_aceita, replicacao_planejada, storage_apos_conclusao,
    storage_apos_replicacao,
};
use crate::models::{Cliente, ClienteView, DadosReplicacao, Pedido, PedidoView, instante_le};
use crate::storage::StorageView;
use crate::tabela::{
    enumera, lema_anterior_vem_antes, lema_enumera_completa, lema_listagem_determinada,
    lema_mais_recente_no_fim,
    momentos_distintos, ordenada,
};

verus! {

/// A client read back by id after it was stored is the client that was
/// stored; every other id reads back what it did before, and the orders are
/// untouched.
pub proof fn lei_leitura_apos_escrita_cliente(s: StorageView, c: ClienteView, id: Seq<char>)
    ensures
        s.com_cliente(c).clientes.contains_key(c.id),
        s.com_cliente(c).clientes[c.id] == c,
        id != c.id ==> (s.com_cliente(c).clientes.contains_key(id) == s.clientes.contains_key(id)
            && s.com_cliente(c).clientes[id] == s.clientes[id]),
        s.com_cliente(c).pedidos == s.pedidos,
{
}

/// An order read back by id after it was stored is the order that was
/// stored; every other id reads back what it did before, and the clients are
/// untouched.
pub proof fn lei_leitura_apos_escrita_pedido(s: StorageView, p: PedidoView, id: Seq<char>)
    ensures
        s.com_pedido(p).pedidos.contains_key(p.id),
        s.com_pedido(p).pedidos[p.id] == p,
        id != p.id ==> (s.com_pedido(p).pedidos.contains_key(id) == s.pedidos.contains_key(id)
            && s.com_pedido(p).pedidos[id] == s.pedidos[id]),
        s.com_pedido(p).clientes == s.clientes,
{
}

/// The listing of the clients taken after a client was stored holds that
/// client.
pub proof fn lei_listagem_apos_escrita_cliente(s: StorageView, c: ClienteView, lista: Seq<Cliente>)
    requires
        s.clientes.dom().finite(),
        enumera(lista, s.com_cliente(c).clientes),
    ensures
        exists|i: int| 0 <= i < lista.len() && #[trigger] lista[i]@ == c,
{
    let m = s.com_cliente(c).clientes;
    lema_enumera_completa(lista, m, c.id);
    let i: int = choose|i: int| 0 <= i < lista.len() && lista[i]@.id == c.id && lista[i]@ == m[c.id];
    assert(lista[i]@ == c);
}

/// The listing of the orders taken after an order was stored holds that
/// order.
pub proof fn lei_listagem_apos_escrita_pedido(s: StorageView, p: PedidoView, lista: Seq<Pedido>)
    requires
        s.pedidos.dom().finite(),
        enumera(lista, s.com_pedido(p).pedidos),
    ensures
        exists|i: int| 0 <= i < lista.len() && #[trigger] lista[i]@ == p,
{
    let m = s.com_pedido(p).pedidos;
    lema_enumera_completa(lista, m, p.id);
    let i: int = choose|i: int| 0 <= i < lista.len() && lista[i]@.id == p.id && lista[i]@ == m[p.id];
    assert(lista[i]@ == p);
}

/// The primary confirms a write only once the backup acknowledged it: on
/// the primary a write may be confirmed only if its plan sent it to the
/// backup and the sending ended `Ok`; a primary that knows no backup
/// confirms nothing, whatever plan or outcome it is handed.
pub proof fn lei_primario_so_confirma_com_ack(
    v: AppStateView,
    r: Replicacao,
    envio: Option<Result<(), String>>,
)
    requires
        exige_backup(v),
    ensures
        desfecho(v, r, envio) is Ok ==> r is Enviar && envio matches Some(Ok(_)),
        v.backup_url is None ==> desfecho(v, r, envio) is Err,
{
}

/// Strong consistency for clients: a primary (state `v`) and a backup that
/// hold the same data still do after the primary creates client `c` through the backup,
/// when the backup read back `c` from the replicated write (or failed to read
/// it) and the sending ended `Ok` exactly when the backup accepted it.
pub proof fn lei_consistencia_forte_cliente(
    v: AppStateView,
    backup: StorageView,
    c: Cliente,
    replicacao: Replicacao,
    envio: Option<Result<(), String>>,
    recebido: Result<Cliente, String>,
    como_pedido: Result<Pedido, String>,
)
    requires
        v.storage == backup,
        deve_replicar(v),
        replicacao is Enviar,
        recebido matches Ok(r) ==> r@ == c@,
        envio matches Some(Ok(_)) <==> replicacao_aceita("criar_cliente"@, recebido, como_pedido),
    ensures
        storage_apos_conclusao(
            v.storage,
            desfecho(v, replicacao, envio),
            |s: StorageView| s.com_cliente(c@),
        ) == storage_apos_replicacao(backup, "criar_cliente"@, recebido, como_pedido),
{
    lema_operacoes_distintas();
}

/// Strong consistency for orders: a primary (state `v`) and a backup that
/// hold the same data still do after the primary creates order `p` through the backup,
/// when the backup read back `p` from the replicated write (or failed to read
/// it) and the sending ended `Ok` exactly when the backup accepted it.
pub proof fn lei_consistencia_forte_pedido(
    v: AppStateView,
    backup: StorageView,
    p: Pedido,
    replicacao: Replicacao,
    envio: Option<Result<(), String>>,
    como_cliente: Result<Cliente, String>,
    recebido: Result<Pedido, String>,
)
    requires
        v.storage == backup,
        deve_replicar(v),
        replicacao is Enviar,
        recebido matches Ok(r) ==> r@ == p@,
        envio matches Some(Ok(_)) <==> replicacao_aceita("criar_pedido"@, como_cliente, recebido),
    ensures
        storage_apos_conclusao(
            v.storage,
            desfecho(v, replicacao, envio),
            |s: StorageView| s.com_pedido(p@),
        ) == storage_apos_replicacao(backup, "criar_pedido"@, como_cliente, recebido),
{
    lema_operacoes_distintas();
}

/// A write that may not be confirmed leaves the primary's data as it was.
pub proof fn lei_sem_ack_nada_muda(
    v: AppStateView,
    replicacao: Replicacao,
    envio: Option<Result<(), String>>,
    gravar: spec_fn(StorageView) -> StorageView,
)
    requires
        desfecho(v, replicacao, envio) is Err,
    ensures
        storage_apos_conclusao(v.storage, desfecho(v, replicacao, envio), gravar) == v.storage,
{
}

/// The storage after the clients of `cs` are stored one after another.
pub open spec fn com_clientes(s: StorageView, cs: Seq<ClienteView>) -> StorageView
    decreases cs.len(),
{
    if cs.len() == 0 {
        s
    } else {
        com_clientes(s, cs.drop_last()).com_cliente(cs.last())
    }
}

/// Clients created one after another with distinct ids are all kept: each
/// reads back as it was stored, every other id reads back what it did
/// before, and the orders are untouched. (The node runs its writes one at a
/// time, so concurrent creations end in such a sequence.)
pub proof fn lei_criacoes_sucessivas(s: StorageView, cs: Seq<ClienteView>, k: Seq<char>)
    requires
        forall|i: int, j: int| 0 <= i < j < cs.len() ==> #[trigger] cs[i].id != #[trigger] cs[j].id,
    ensures
        forall|i: int|
            0 <= i < cs.len() ==> com_clientes(s, cs).clientes.contains_key(#[trigger] cs[i].id)
                && com_clientes(s, cs).clientes[cs[i].id] == cs[i],
        (forall|i: int| 0 <= i < cs.len() ==> #[trigger] cs[i].id != k) ==> (com_clientes(
            s,
            cs,
        ).clientes.contains_key(k) == s.clientes.contains_key(k) && com_clientes(s, cs).clientes[k]
            == s.clientes[k]),
        com_clientes(s, cs).pedidos == s.pedidos,
    decreases cs.len(),
{
    if cs.len() > 0 {
        let antes = cs.drop_last();
        lei_criacoes_sucessivas(s, antes, k);
        assert forall|i: int| 0 <= i < cs.len() implies com_clientes(s, cs).clientes.contains_key(
            #[trigger] cs[i].id,
        ) && com_clientes(s, cs).clientes[cs[i].id] == cs[i] by {
            if i < cs.len() - 1 {
                assert(antes[i] == cs[i]);
                assert(cs[i].id != cs[cs.len() - 1].id);
            }
        }
        if forall|i: int| 0 <= i < cs.len() ==> #[trigger] cs[i].id != k {
            assert forall|i: int| 0 <= i < antes.len() implies #[trigger] antes[i].id != k by {
                assert(antes[i] == cs[i]);
            }
            assert(cs[cs.len() - 1].id != k);
        }
    }
}

/// Among clients created at distinct times, the one created last is listed
/// last: when every other stored client was created strictly before `c`, a
/// listing taken after `c` was stored ends with `c`.
pub proof fn lei_mais_recente_por_ultimo(s: StorageView, c: ClienteView, lista: Seq<Cliente>)
    requires
        s.clientes.dom().finite(),
        enumera(lista, s.com_cliente(c).clientes),
        ordenada(lista),
        forall|k: Seq<char>|
            #[trigger] s.clientes.contains_key(k) && k != c.id ==> !instante_le(
                c.criado_em,
                s.clientes[k].criado_em,
            ),
    ensures
        lista.len() > 0,
        lista.last()@ == c,
{
    let m = s.com_cliente(c).clientes;
    lema_enumera_completa(lista, m, c.id);
    let i: int = choose|i: int| 0 <= i < lista.len() && lista[i]@.id == c.id && lista[i]@ == m[c.id];
    let n: int = lista.len() - 1;
    if i != n {
        assert(lista[n]@.id != lista[i]@.id);
        assert(m.contains_key(lista[n]@.id));
        assert(s.clientes.contains_key(lista[n]@.id));
        assert(instante_le(lista[i]@.criado_em, lista[n]@.criado_em));
    }
}

/// Replaying a replicated write on the backup changes nothing more: the
/// second application leaves the data as the first left it.
pub proof fn lei_replicacao_idempotente(
    s: StorageView,
    operacao: Seq<char>,
    como_cliente: Result<Cliente, String>,
    como_pedido: Result<Pedido, String>,
)
    ensures
        storage_apos_replicacao(
            storage_apos_replicacao(s, operacao, como_cliente, como_pedido),
            operacao,
            como_cliente,
            como_pedido,
        ) == storage_apos_replicacao(s, operacao, como_cliente, como_pedido),
{
    let uma = storage_apos_replicacao(s, operacao, como_cliente, como_pedido);
    let duas = storage_apos_replicacao(uma, operacao, como_cliente, como_pedido);
    assert(duas.clientes =~= uma.clientes);
    assert(duas.pedidos =~= uma.pedidos);
}

/// After a failure is simulated the health check answers 503, and it keeps
/// answering 503 whatever the node stores afterwards; the data the node holds
/// is kept.
pub proof fn lei_falha_simulada(v: AppStateView, depois: StorageView)
    ensures
        codigo_saude(AppStateView { alive: false, ..v }) == 503,
        codigo_saude(AppStateView { storage: depois, ..AppStateView { alive: false, ..v } }) == 503,
        (AppStateView { alive: false, ..v }).storage == v.storage,
{
}

/// A simulated failure changes only what the health check answers: what a
/// node plans for a write, whether it must replicate, whether a write may be
/// confirmed, and everything it stores and lists are the same before and
/// after the failure. (The other handlers' contracts speak of the stored
/// data and the role alone, never of `alive`.)
pub proof fn lei_falha_so_afeta_saude(
    v: AppStateView,
    r: Replicacao,
    operacao: Seq<char>,
    dados: spec_fn(DadosReplicacao) -> bool,
)
    ensures
        replicacao_planejada(AppStateView { alive: false, ..v }, r, operacao, dados)
            == replicacao_planejada(v, r, operacao, dados),
        exige_backup(AppStateView { alive: false, ..v }) == exige_backup(v),
        deve_replicar(AppStateView { alive: false, ..v }) == deve_replicar(v),
        (AppStateView { alive: false, ..v }).storage == v.storage,
        (AppStateView { alive: false, ..v }).role == v.role,
        forall|r2: Replicacao, envio: Option<Result<(), String>>|
            #[trigger] desfecho(AppStateView { alive: false, ..v }, r2, envio) == desfecho(
                v,
                r2,
                envio,
            ),
{
}

/// Once a failure is simulated it stays: along any run of handler calls
/// that starts on a failed node, the node stays failed and its health check
/// answers 503, and its role and backup stay as they were. Only a new
/// `AppState` starts alive.
pub proof fn lei_falha_permanente(estados: Seq<AppStateView>)
    requires
        estados.len() > 0,
        !estados[0].alive,
        forall|i: int| 0 <= i < estados.len() - 1 ==> passo_do_no(#[trigger] estados[i], estados[i + 1]),
    ensures
        forall|i: int|
            0 <= i < estados.len() ==> !(#[trigger] estados[i]).alive && codigo_saude(estados[i]) == 503
                && estados[i].role == estados[0].role && estados[i].backup_url == estados[0].backup_url,
    decreases estados.len(),
{
    if estados.len() > 1 {
        let antes = estados.drop_last();
        assert forall|i: int| 0 <= i < antes.len() - 1 implies passo_do_no(#[trigger] antes[i], antes[i + 1]) by {
            assert(antes[i] == estados[i] && antes[i + 1] == estados[i + 1]);
        }
        lei_falha_permanente(antes);
        let n: int = estados.len() - 1;
        assert(passo_do_no(estados[n - 1], estados[n]));
        assert(antes[n - 1] == estados[n - 1]);
        assert forall|i: int| 0 <= i < estados.len() implies !(#[trigger] estados[i]).alive
            && codigo_saude(estados[i]) == 503 && estados[i].role == estados[0].role
            && estados[i].backup_url == estados[0].backup_url by {
            if i < n {
                assert(antes[i] == estados[i]);
            }
        }
    }
}

/// No insertion is lost: a run of writes in which each stores one client
/// (`cs[i]` at step `i`) ends with the storage that storing them all one
/// after another gives, so, by [`lei_criacoes_sucessivas`], clients with
/// distinct ids are all kept.
pub proof fn lei_sem_insercao_perdida(estados: Seq<StorageView>, cs: Seq<ClienteView>)
    requires
        estados.len() == cs.len() + 1,
        forall|i: int| 0 <= i < cs.len() ==> #[trigger] estados[i + 1] == estados[i].com_cliente(cs[i]),
    ensures
        estados.last() == com_clientes(estados[0], cs),
    decreases cs.len(),
{
    if cs.len() > 0 {
        let e2 = estados.drop_last();
        let c2 = cs.drop_last();
        assert forall|i: int| 0 <= i < c2.len() implies #[trigger] e2[i + 1] == e2[i].com_cliente(c2[i]) by {
            assert(e2[i + 1] == estados[i + 1] && e2[i] == estados[i] && c2[i] == cs[i]);
        }
        lei_sem_insercao_perdida(e2, c2);
        let n: int = cs.len() - 1;
        assert(estados[n + 1] == estados[n].com_cliente(cs[n]));
        assert(e2.last() == estados[n]);
    }
}

/// A late acknowledgement splits the nodes: when the backup accepted and
/// stored client `c` but the primary's sending ended in an error (the
/// acknowledgement came after the timeout), the backup holds `c` while the
/// primary's data stays as it was.
pub proof fn lei_ack_tardio_cliente(
    v: AppStateView,
    backup: StorageView,
    c: Cliente,
    replicacao: Replicacao,
    erro: String,
    como_pedido: Result<Pedido, String>,
)
    requires
        deve_replicar(v),
        replicacao is Enviar,
    ensures
        storage_apos_replicacao(backup, "criar_cliente"@, Ok(c), como_pedido).clientes.contains_key(
            c@.id,
        ),
        storage_apos_replicacao(backup, "criar_cliente"@, Ok(c), como_pedido).clientes[c@.id] == c@,
        storage_apos_conclusao(
            v.storage,
            desfecho(v, replicacao, Some(Err(erro))),
            |s: StorageView| s.com_cliente(c@),
        ) == v.storage,
{
}

/// A late acknowledgement splits the nodes: when the backup accepted and
/// stored order `p` but the primary's sending ended in an error, the backup
/// holds `p` while the primary's data stays as it was.
pub proof fn lei_ack_tardio_pedido(
    v: AppStateView,
    backup: StorageView,
    p: Pedido,
    replicacao: Replicacao,
    erro: String,
    como_cliente: Result<Cliente, String>,
)
    requires
        deve_replicar(v),
        replicacao is Enviar,
    ensures
        storage_apos_replicacao(backup, "criar_pedido"@, como_cliente, Ok(p)).pedidos.contains_key(
            p@.id,
        ),
        storage_apos_replicacao(backup, "criar_pedido"@, como_cliente, Ok(p)).pedidos[p@.id] == p@,
        storage_apos_conclusao(
            v.storage,
            desfecho(v, replicacao, Some(Err(erro))),
            |s: StorageView| s.com_pedido(p@),
        ) == v.storage,
{
    lema_operacoes_distintas();
}

/// When no two clients were created at the same instant, the listing of the
/// clients is fully determined: two listings of the same stored clients hold
/// the same clients in the same order.
pub proof fn lei_listagem_determinada_clientes(s: StorageView, l1: Seq<Cliente>, l2: Seq<Cliente>)
    requires
        s.clientes.dom().finite(),
        momentos_distintos::<Cliente>(s.clientes),
        enumera(l1, s.clientes),
        ordenada(l1),
        enumera(l2, s.clientes),
        ordenada(l2),
    ensures
        l1.len() == l2.len(),
        forall|i: int| 0 <= i < l1.len() ==> #[trigger] l1[i]@ == l2[i]@,
{
    lema_listagem_determinada(l1, l2, s.clientes);
}

/// When no two orders were created at the same instant, the listing of the
/// orders is fully determined: two listings of the same stored orders hold
/// the same orders in the same order.
pub proof fn lei_listagem_determinada_pedidos(s: StorageView, l1: Seq<Pedido>, l2: Seq<Pedido>)
    requires
        s.pedidos.dom().finite(),
        momentos_distintos::<Pedido>(s.pedidos),
        enumera(l1, s.pedidos),
        ordenada(l1),
        enumera(l2, s.pedidos),
        ordenada(l2),
    ensures
        l1.len() == l2.len(),
        forall|i: int| 0 <= i < l1.len() ==> #[trigger] l1[i]@ == l2[i]@,
{
    lema_listagem_determinada(l1, l2, s.pedidos);
}

/// When the stored clients were created at distinct instants, storing a
/// client with a new id created strictly after all of them appends it to the
/// listing: the new listing is the old one, unchanged, followed by `c`.
pub proof fn lei_mais_recente_no_fim_cliente(
    s: StorageView,
    antes: Seq<Cliente>,
    c: ClienteView,
    depois: Seq<Cliente>,
)
    requires
        s.clientes.dom().finite(),
        momentos_distintos::<Cliente>(s.clientes),
        !s.clientes.contains_key(c.id),
        forall|k: Seq<char>|
            #[trigger] s.clientes.contains_key(k) ==> !instante_le(c.criado_em, s.clientes[k].criado_em),
        enumera(antes, s.clientes),
        ordenada(antes),
        enumera(depois, s.com_cliente(c).clientes),
        ordenada(depois),
    ensures
        depois.len() == antes.len() + 1,
        forall|i: int| 0 <= i < antes.len() ==> #[trigger] depois[i]@ == antes[i]@,
        depois[antes.len() as int]@ == c,
{
    lema_mais_recente_no_fim(antes, s.clientes, c, depois);
}

/// When the stored orders were created at distinct instants, storing an
/// order with a new id created strictly after all of them appends it to the
/// listing: the new listing is the old one, unchanged, followed by `p`.
pub proof fn lei_mais_recente_no_fim_pedido(
    s: StorageView,
    antes: Seq<Pedido>,
    p: PedidoView,
    depois: Seq<Pedido>,
)
    requires
        s.pedidos.dom().finite(),
        momentos_distintos::<Pedido>(s.pedidos),
        !s.pedidos.contains_key(p.id),
        forall|k: Seq<char>|
            #[trigger] s.pedidos.contains_key(k) ==> !instante_le(p.criado_em, s.pedidos[k].criado_em),
        enumera(antes, s.pedidos),
        ordenada(antes),
        enumera(depois, s.com_pedido(p).pedidos),
        ordenada(depois),
    ensures
        depois.len() == antes.len() + 1,
        forall|i: int| 0 <= i < antes.len() ==> #[trigger] depois[i]@ == antes[i]@,
        depois[antes.len() as int]@ == p,
{
    lema_mais_recente_no_fim(antes, s.pedidos, p, depois);
}

/// A listing of the clients puts an older client before a newer one: in any
/// listing ordered by creation time, the client created in the earlier
/// second (or earlier within the same second) comes first.
pub proof fn lei_listagem_cronologica_clientes(l: Seq<Cliente>, i: int, j: int)
    requires
        ordenada(l),
        0 <= i < l.len(),
        0 <= j < l.len(),
        l[i].criado_em.segundos < l[j].criado_em.segundos || (l[i].criado_em.segundos
            == l[j].criado_em.segundos && l[i].criado_em.nanos < l[j].criado_em.nanos),
    ensures
        i < j,
{
    lema_anterior_vem_antes(l, i, j);
}

/// A listing of the orders puts an older order before a newer one: in any
/// listing ordered by creation time, the order created in the earlier second
/// (or earlier within the same second) comes first.
pub proof fn lei_listagem_cronologica_pedidos(l: Seq<Pedido>, i: int, j: int)
    requires
        ordenada(l),
        0 <= i < l.len(),
        0 <= j < l.len(),
        l[i].criado_em.segundos < l[j].criado_em.segundos || (l[i].criado_em.segundos
            == l[j].criado_em.segundos && l[i].criado_em.nanos < l[j].criado_em.nanos),
    ensures
        i < j,
{
    lema_anterior_vem_antes(l, i, j);
}

/// The health check answers 200 on every live node and 503 on every failed
/// one, whatever the node's role, backup or data.
pub proof fn lei_saude_so_depende_da_vida(v: AppStateView, outro: AppStateView)
    ensures
        v.alive ==> codigo_saude(v) == 200,
        !v.alive ==> codigo_saude(v) == 503,
        v.alive == outro.alive ==> codigo_saude(v) == codigo_saude(outro),
{
}

/// A node that is not the primary (a backup, also after failover) confirms
/// every write: whatever it stores, whatever plan and sending outcome it is
/// handed, the write may be confirmed and the record is stored.
pub proof fn lei_no_nao_primario_confirma(
    v: AppStateView,
    r: Replicacao,
    envio: Option<Result<(), String>>,
    c: ClienteView,
    p: PedidoView,
)
    requires
        v.role != "primario"@,
    ensures
        desfecho(v, r, envio) is Ok,
        storage_apos_conclusao(v.storage, desfecho(v, r, envio), |s: StorageView| s.com_cliente(c))
            == v.storage.com_cliente(c),
        storage_apos_conclusao(v.storage, desfecho(v, r, envio), |s: StorageView| s.com_pedido(p))
            == v.storage.com_pedido(p),
{
}

} // verus!
