//! Messages that flow between the console, network and audio workers, and
//! the bounded channels that carry them.
use vstd::prelude::*;

verus! {

#[verifier::external_type_specification]
#[verifier::external_body]
#[verifier::reject_recursive_types(T)]
pub struct ExSender<T>(crossbeam_channel::Sender<T>);

#[verifier::external_type_specification]
#[verifier::external_body]
#[verifier::reject_recursive_types(T)]
pub struct ExReceiver<T>(crossbeam_channel::Receiver<T>);

/// Capacity of the command and state channels.
pub const CONTROL_CHANNEL_CAPACITY: usize = 64;

/// Capacity of the debug-text channels.
pub const DEBUG_CHANNEL_CAPACITY: usize = 256;

/// The capacity a channel of commands from the console to the network worker was made with.
pub uninterp spec fn command_capacity(s: crossbeam_channel::Sender<NetworkCommand>) -> usize;

/// The sender and the receiver are the two ends of one channel of commands from the console to the network worker.
pub uninterp spec fn command_connected(s: crossbeam_channel::Sender<NetworkCommand>, r: crossbeam_channel::Receiver<NetworkCommand>) -> bool;

/// Relies on crossbeam_channel::bounded for commands from the console to the network worker: the two ends of one channel
/// that holds at most `cap` messages (`Sender::capacity` gives `Some(cap)`);
/// it panics only for capacities too large to allocate.
#[verifier::external_body]
fn bounded_command(cap: usize) -> (r: (crossbeam_channel::Sender<NetworkCommand>, crossbeam_channel::Receiver<NetworkCommand>))
    requires
        cap <= DEBUG_CHANNEL_CAPACITY,
    ensures
        command_capacity(r.0) == cap,
        command_connected(r.0, r.1),
{
    crossbeam_channel::bounded(cap)
}

/// The capacity a channel of network state reports was made with.
pub uninterp spec fn network_state_capacity(s: crossbeam_channel::Sender<NetworkStateMessage>) -> usize;

/// The sender and the receiver are the two ends of one channel of network state reports.
pub uninterp spec fn network_state_connected(s: crossbeam_channel::Sender<NetworkStateMessage>, r: crossbeam_channel::Receiver<NetworkStateMessage>) -> bool;

/// Relies on crossbeam_channel::bounded for network state reports: the two ends of one channel
/// that holds at most `cap` messages (`Sender::capacity` gives `Some(cap)`);
/// it panics only for capacities too large to allocate.
#[verifier::external_body]
fn bounded_network_state(cap: usize) -> (r: (crossbeam_channel::Sender<NetworkStateMessage>, crossbeam_channel::Receiver<NetworkStateMessage>))
    requires
        cap <= DEBUG_CHANNEL_CAPACITY,
    ensures
        network_state_capacity(r.0) == cap,
        network_state_connected(r.0, r.1),
{
    crossbeam_channel::bounded(cap)
}

/// The capacity a channel of debug text was made with.
pub uninterp spec fn text_capacity(s: crossbeam_channel::Sender<String>) -> usize;

/// The sender and the receiver are the two ends of one channel of debug text.
pub uninterp spec fn text_connected(s: crossbeam_channel::Sender<String>, r: crossbeam_channel::Receiver<String>) -> bool;

/// Relies on crossbeam_channel::bounded for debug text: the two ends of one channel
/// that holds at most `cap` messages (`Sender::capacity` gives `Some(cap)`);
/// it panics only for capacities too large to allocate.
#[verifier::external_body]
fn bounded_text(cap: usize) -> (r: (crossbeam_channel::Sender<String>, crossbeam_channel::Receiver<String>))
    requires
        cap <= DEBUG_CHANNEL_CAPACITY,
    ensures
        text_capacity(r.0) == cap,
        text_connected(r.0, r.1),
{
    crossbeam_channel::bounded(cap)
}

/// The capacity a channel of audio output commands was made with.
pub uninterp spec fn audio_command_capacity(s: crossbeam_channel::Sender<ConsoleAudioCommands>) -> usize;

/// The sender and the receiver are the two ends of one channel of audio output commands.
pub uninterp spec fn audio_command_connected(s: crossbeam_channel::Sender<ConsoleAudioCommands>, r: crossbeam_channel::Receiver<ConsoleAudioCommands>) -> bool;

/// Relies on crossbeam_channel::bounded for audio output commands: the two ends of one channel
/// that holds at most `cap` messages (`Sender::capacity` gives `Some(cap)`);
/// it panics only for capacities too large to allocate.
#[verifier::external_body]
fn bounded_audio_command(cap: usize) -> (r: (crossbeam_channel::Sender<ConsoleAudioCommands>, crossbeam_channel::Receiver<ConsoleAudioCommands>))
    requires
        cap <= DEBUG_CHANNEL_CAPACITY,
    ensures
        audio_command_capacity(r.0) == cap,
        audio_command_connected(r.0, r.1),
{
    crossbeam_channel::bounded(cap)
}

/// The capacity a channel of media packets for audio output was made with.
pub uninterp spec fn audio_packet_capacity(s: crossbeam_channel::Sender<NetworkAudioPackets>) -> usize;

/// The sender and the receiver are the two ends of one channel of media packets for audio output.
pub uninterp spec fn audio_packet_connected(s: crossbeam_channel::Sender<NetworkAudioPackets>, r: crossbeam_channel::Receiver<NetworkAudioPackets>) -> bool;

/// Relies on crossbeam_channel::bounded for media packets for audio output: the two ends of one channel
/// that holds at most `cap` messages (`Sender::capacity` gives `Some(cap)`);
/// it panics only for capacities too large to allocate.
#[verifier::external_body]
fn bounded_audio_packet(cap: usize) -> (r: (crossbeam_channel::Sender<NetworkAudioPackets>, crossbeam_channel::Receiver<NetworkAudioPackets>))
    requires
        cap <= DEBUG_CHANNEL_CAPACITY,
    ensures
        audio_packet_capacity(r.0) == cap,
        audio_packet_connected(r.0, r.1),
{
    crossbeam_channel::bounded(cap)
}

/// The capacity a channel of audio output state reports was made with.
pub uninterp spec fn audio_state_capacity(s: crossbeam_channel::Sender<AudioStateMessage>) -> usize;

/// The sender and the receiver are the two ends of one channel of audio output state reports.
pub uninterp spec fn audio_state_connected(s: crossbeam_channel::Sender<AudioStateMessage>, r: crossbeam_channel::Receiver<AudioStateMessage>) -> bool;

/// Relies on crossbeam_channel::bounded for audio output state reports: the two ends of one channel
/// that holds at most `cap` messages (`Sender::capacity` gives `Some(cap)`);
/// it panics only for capacities too large to allocate.
#[verifier::external_body]
fn bounded_audio_state(cap: usize) -> (r: (crossbeam_channel::Sender<AudioStateMessage>, crossbeam_channel::Receiver<AudioStateMessage>))
    requires
        cap <= DEBUG_CHANNEL_CAPACITY,
    ensures
        audio_state_capacity(r.0) == cap,
        audio_state_connected(r.0, r.1),
{
    crossbeam_channel::bounded(cap)
}

/// The capacity a channel of static debug text was made with.
pub uninterp spec fn static_text_capacity(s: crossbeam_channel::Sender<&'static str>) -> usize;

/// The sender and the receiver are the two ends of one channel of static debug text.
pub uninterp spec fn static_text_connected(s: crossbeam_channel::Sender<&'static str>, r: crossbeam_channel::Receiver<&'static str>) -> bool;

/// Relies on crossbeam_channel::bounded for static debug text: the two ends of one channel
/// that holds at most `cap` messages (`Sender::capacity` gives `Some(cap)`);
/// it panics only for capacities too large to allocate.
#[verifier::external_body]
fn bounded_static_text(cap: usize) -> (r: (crossbeam_channel::Sender<&'static str>, crossbeam_channel::Receiver<&'static str>))
    requires
        cap <= DEBUG_CHANNEL_CAPACITY,
    ensures
        static_text_capacity(r.0) == cap,
        static_text_connected(r.0, r.1),
{
    crossbeam_channel::bounded(cap)
}

/// An IP address in network byte order.
#[derive(Clone, Copy, Debug)]
pub enum IpAddress {
    V4([u8; 4]),
    V6([u8; 16]),
}

/// A UDP endpoint.
#[derive(Clone, Copy, Debug)]
pub struct SocketAddress {
    pub ip: IpAddress,
    pub port: u16,
}

/// Encoded music staged for playback: Opus packets and their channel count.
pub struct OpusData {
    pub channels: u8,
    pub packets: Vec<Vec<u8>>,
}

pub enum NetworkCommand {
    Stop(u64),
    Client(ClientCommand),
    Server(ServerCommand),
}

pub enum ClientCommand {
    StateChange(u8),
    ServerConnect(SocketAddress),
    MusicTransfer(OpusData),
}

pub enum ServerCommand {
    ConnectionClose(usize),
}

pub struct NetworkStateConnection {
    pub name: String,
    pub state: u8,
}

pub enum NetworkStateMessage {
    ServerNameChange(String),
    ConnectionsRefresh((Option<usize>, Vec<NetworkStateConnection>)),
    NewConnection((String, u8)),
    StateChange((usize, u8)),
}

pub enum ConsoleAudioCommands {
    LoadOpus(OpusData),
    PlayOpus(u64),
}

pub enum NetworkAudioPackets {
    MusicPacket((u8, Vec<u8>)),
    MusicStop(u8),
    VoiceData(Vec<u8>),
}

/// Reserved: the audio output reports no state yet, so this carries nothing.
pub struct AudioStateMessage {}

/// The network worker's ends of the console channels.
pub struct NetworkThreadChannels {
    pub command_recv: crossbeam_channel::Receiver<NetworkCommand>,
    pub network_state_send: crossbeam_channel::Sender<NetworkStateMessage>,
    pub network_debug_send: crossbeam_channel::Sender<String>,
}

/// The console's ends of the network channels.
pub struct ConsoleThreadChannels {
    pub command_send: crossbeam_channel::Sender<NetworkCommand>,
    pub network_state_recv: crossbeam_channel::Receiver<NetworkStateMessage>,
    pub network_debug_recv: crossbeam_channel::Receiver<String>,
}

/// The audio output worker's ends of its channels.
pub struct AudioOutputThreadChannels {
    pub command_recv: crossbeam_channel::Receiver<ConsoleAudioCommands>,
    pub packet_recv: crossbeam_channel::Receiver<NetworkAudioPackets>,
    pub state_send: crossbeam_channel::Sender<AudioStateMessage>,
    pub debug_send: crossbeam_channel::Sender<&'static str>,
}

/// The network worker's end of the audio packet channel.
pub struct NetworkAudioOutputChannels {
    pub packet_send: crossbeam_channel::Sender<NetworkAudioPackets>,
}

/// The console's ends of the audio output channels.
pub struct ConsoleAudioOutputChannels {
    pub command_send: crossbeam_channel::Sender<ConsoleAudioCommands>,
    pub state_recv: crossbeam_channel::Receiver<AudioStateMessage>,
    pub debug_recv: crossbeam_channel::Receiver<&'static str>,
}

/// Creates the command, state and debug channels between the network worker
/// and the console: command and state channels hold 64 messages, the debug
/// channel 256.
pub fn create_networking_console_channels() -> (r: (NetworkThreadChannels, ConsoleThreadChannels))
    ensures
        command_capacity(r.1.command_send) == CONTROL_CHANNEL_CAPACITY,
        command_connected(r.1.command_send, r.0.command_recv),
        network_state_capacity(r.0.network_state_send) == CONTROL_CHANNEL_CAPACITY,
        network_state_connected(r.0.network_state_send, r.1.network_state_recv),
        text_capacity(r.0.network_debug_send) == DEBUG_CHANNEL_CAPACITY,
        text_connected(r.0.network_debug_send, r.1.network_debug_recv),
{
    let (command_send, command_recv) = bounded_command(CONTROL_CHANNEL_CAPACITY);
    let (network_state_send, network_state_recv) = bounded_network_state(CONTROL_CHANNEL_CAPACITY);
    let (network_debug_send, network_debug_recv) = bounded_text(DEBUG_CHANNEL_CAPACITY);
    (
        NetworkThreadChannels { command_recv, network_state_send, network_debug_send },
        ConsoleThreadChannels { command_send, network_state_recv, network_debug_recv },
    )
}

/// Creates the audio output worker's channels: commands, media packets and
/// state hold 64 messages, debug text 256.
pub fn create_audio_output_channels() -> (r: (
    AudioOutputThreadChannels,
    NetworkAudioOutputChannels,
    ConsoleAudioOutputChannels,
))
    ensures
        audio_command_capacity(r.2.command_send) == CONTROL_CHANNEL_CAPACITY,
        audio_command_connected(r.2.command_send, r.0.command_recv),
        audio_packet_capacity(r.1.packet_send) == CONTROL_CHANNEL_CAPACITY,
        audio_packet_connected(r.1.packet_send, r.0.packet_recv),
        audio_state_capacity(r.0.state_send) == CONTROL_CHANNEL_CAPACITY,
        audio_state_connected(r.0.state_send, r.2.state_recv),
        static_text_capacity(r.0.debug_send) == DEBUG_CHANNEL_CAPACITY,
        static_text_connected(r.0.debug_send, r.2.debug_recv),
{
    let (command_send, command_recv) = bounded_audio_command(CONTROL_CHANNEL_CAPACITY);
    let (packet_send, packet_recv) = bounded_audio_packet(CONTROL_CHANNEL_CAPACITY);
    let (state_send, state_recv) = bounded_audio_state(CONTROL_CHANNEL_CAPACITY);
    let (debug_send, debug_recv) = bounded_static_text(DEBUG_CHANNEL_CAPACITY);
    (
        AudioOutputThreadChannels { command_recv, packet_recv, state_send, debug_send },
        NetworkAudioOutputChannels { packet_send },
        ConsoleAudioOutputChannels { command_send, state_recv, debug_recv },
    )
}

} // verus!
