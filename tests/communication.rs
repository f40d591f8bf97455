use swiftlet_rtc::communication::{
    create_audio_output_channels, create_networking_console_channels, ClientCommand,
    ConsoleAudioCommands, IpAddress, NetworkAudioPackets, NetworkCommand, NetworkStateMessage,
    SocketAddress, CONTROL_CHANNEL_CAPACITY, DEBUG_CHANNEL_CAPACITY,
};

#[test]
fn network_console_channels_have_their_capacities() {
    let (net, console) = create_networking_console_channels();
    assert_eq!(console.command_send.capacity(), Some(64));
    assert_eq!(net.network_state_send.capacity(), Some(64));
    assert_eq!(net.network_debug_send.capacity(), Some(256));
    assert_eq!(CONTROL_CHANNEL_CAPACITY, 64);
    assert_eq!(DEBUG_CHANNEL_CAPACITY, 256);
}

#[test]
fn network_console_channels_carry_messages_in_order() {
    let (net, console) = create_networking_console_channels();
    console.command_send.send(NetworkCommand::Stop(7)).unwrap();
    let addr = SocketAddress { ip: IpAddress::V4([127, 0, 0, 1]), port: 4433 };
    console
        .command_send
        .send(NetworkCommand::Client(ClientCommand::ServerConnect(addr)))
        .unwrap();
    assert!(matches!(net.command_recv.recv().unwrap(), NetworkCommand::Stop(7)));
    match net.command_recv.recv().unwrap() {
        NetworkCommand::Client(ClientCommand::ServerConnect(a)) => {
            assert_eq!(a.port, 4433);
            assert!(matches!(a.ip, IpAddress::V4([127, 0, 0, 1])));
        }
        _ => panic!("wrong command"),
    }
    net.network_state_send.send(NetworkStateMessage::StateChange((2, 1))).unwrap();
    assert!(matches!(console.network_state_recv.recv().unwrap(), NetworkStateMessage::StateChange((2, 1))));
    net.network_debug_send.send(String::from("hello")).unwrap();
    assert_eq!(console.network_debug_recv.recv().unwrap(), "hello");
}

#[test]
fn control_channel_is_bounded() {
    let (_net, console) = create_networking_console_channels();
    for i in 0..64 {
        console.command_send.try_send(NetworkCommand::Stop(i)).unwrap();
    }
    assert!(console.command_send.try_send(NetworkCommand::Stop(64)).is_err());
}

#[test]
fn audio_output_channels_connect_their_ends() {
    let (audio, network, console) = create_audio_output_channels();
    assert_eq!(network.packet_send.capacity(), Some(64));
    assert_eq!(console.command_send.capacity(), Some(64));
    assert_eq!(audio.state_send.capacity(), Some(64));
    assert_eq!(audio.debug_send.capacity(), Some(256));
    network.packet_send.send(NetworkAudioPackets::MusicPacket((1, vec![9, 8]))).unwrap();
    network.packet_send.send(NetworkAudioPackets::MusicStop(1)).unwrap();
    match audio.packet_recv.recv().unwrap() {
        NetworkAudioPackets::MusicPacket((ch, bytes)) => {
            assert_eq!(ch, 1);
            assert_eq!(bytes, vec![9, 8]);
        }
        _ => panic!("wrong packet"),
    }
    assert!(matches!(audio.packet_recv.recv().unwrap(), NetworkAudioPackets::MusicStop(1)));
    console.command_send.send(ConsoleAudioCommands::PlayOpus(3)).unwrap();
    assert!(matches!(audio.command_recv.recv().unwrap(), ConsoleAudioCommands::PlayOpus(3)));
    audio.debug_send.send("underrun").unwrap();
    assert_eq!(console.debug_recv.recv().unwrap(), "underrun");
}
