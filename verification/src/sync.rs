//! Strong consistency: the primary sends each write to the backup and waits
//! for its acknowledgement before it confirms the write.
//!
//! The network exchange is done by the caller one step at a time; after each
//! step it hands the outcome to [`avancar_replicacao`], which says whether to
//! go on or how the replication ended.

use vstd::prelude::*;
use crate::models::AckResposta;
use crate::texto::concatenar;

verus! {

/// How long the primary waits for the backup's acknowledgement, in seconds.
pub const TIMEOUT_REPLICACAO_SEGUNDOS: u64 = 3;

/// The backup's endpoint for replicated writes, under `backup_url`.
pub fn url_replicacao(backup_url: &str) -> (r: String)
    ensures
        r@ == backup_url@ + "/interno/replicar"@,
{
    concatenar(backup_url, "/interno/replicar")
}

/// Whether an HTTP status code reports success (200 to 299).
pub open spec fn status_de_sucesso(codigo: u16) -> bool {
    200 <= codigo < 300
}

/// The outcome of one step of sending a write to the backup.
pub enum EtapaEnvio {
    /// The HTTP client could not be built; the error's text.
    ClienteHttpFalhou(String),
    /// The request could not be sent or no answer came in time; the error's text.
    EnvioFalhou(String),
    /// The backup answered with this status: its code and its text.
    StatusRecebido { codigo: u16, texto: String },
    /// The answer's body is not an acknowledgement; the error's text.
    CorpoInvalido(String),
    /// The acknowledgement that the backup sent.
    AckRecebido(AckResposta),
}

/// What follows a step.
pub enum Passo {
    /// Go on: read the acknowledgement from the answer's body.
    Continuar,
    /// The replication is over: `Ok` when the backup acknowledged the write,
    /// otherwise the reason it failed.
    Concluir(Result<(), String>),
}

/// The replication ended with an error whose text is `msg`.
pub open spec fn falhou_com(p: Passo, msg: Seq<char>) -> bool {
    p matches Passo::Concluir(Err(m)) && m@ == msg
}

/// Decides what follows a step of the exchange with the backup.
pub fn avancar_replicacao(etapa: EtapaEnvio) -> (r: Passo)
    ensures
        match etapa {
            EtapaEnvio::ClienteHttpFalhou(e) => falhou_com(r, "Erro ao criar cliente HTTP: "@ + e@),
            EtapaEnvio::EnvioFalhou(e) => falhou_com(r, "Backup indisponível: "@ + e@),
            EtapaEnvio::StatusRecebido { codigo, texto } => if status_de_sucesso(codigo) {
                r is Continuar
            } else {
                falhou_com(r, "Backup rejeitou a replicação (status "@ + texto@ + ")"@)
            },
            EtapaEnvio::CorpoInvalido(e) => falhou_com(r, "Resposta inválida do backup: "@ + e@),
            EtapaEnvio::AckRecebido(ack) => if ack.aceito {
                r matches Passo::Concluir(Ok(_))
            } else {
                falhou_com(r, "Backup recusou operação: "@ + ack.mensagem@)
            },
        },
{
    match etapa {
        EtapaEnvio::ClienteHttpFalhou(e) => Passo::Concluir(
            Err(concatenar("Erro ao criar cliente HTTP: ", e.as_str())),
        ),
        EtapaEnvio::EnvioFalhou(e) => Passo::Concluir(
            Err(concatenar("Backup indisponível: ", e.as_str())),
        ),
        EtapaEnvio::StatusRecebido { codigo, texto } => {
            if 200 <= codigo && codigo < 300 {
                Passo::Continuar
            } else {
                let inicio = concatenar("Backup rejeitou a replicação (status ", texto.as_str());
                Passo::Concluir(Err(concatenar(inicio.as_str(), ")")))
            }
        },
        EtapaEnvio::CorpoInvalido(e) => Passo::Concluir(
            Err(concatenar("Resposta inválida do backup: ", e.as_str())),
        ),
        EtapaEnvio::AckRecebido(ack) => {
            if ack.aceito {
                Passo::Concluir(Ok(()))
            } else {
                Passo::Concluir(Err(concatenar("Backup recusou operação: ", ack.mensagem.as_str())))
            }
        },
    }
}

} // verus!
