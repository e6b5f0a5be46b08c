# dingtalk-wayland-screenshare

Screen sharing for the Linux client of DingTalk in a Wayland session. The client asks the X server
for pictures of the screen, which a Wayland session does not give it. Preloaded into the client,
this project answers in the X server's place: it has the desktop portal open a screen cast,
receives the video over PipeWire, and puts the pictures into the client's own shared-memory images.

What the hook decides and computes is a library written in Verus; its contracts are proved.

| Module | What it holds |
| --- | --- |
| `image_proc` | rescaling a picture and exchanging its red and blue channels |
| `pw` | the latest picture, the negotiation of the video stream, the end of a capture |
| `portal` | the conversation with the desktop portal |
| `capture` | when a capture is begun, kept and ended |
| `injector` | putting pictures into an image of the client |
| `hook` | whose calls count, and what the client gets to hear |
| `text` | numbers in digits, texts within texts, object paths |

`app/` holds what surrounds it: the exported functions, the message bus, the PipeWire stream and
the threads. Trusted without proof are the calls into `resize`, `rgb` and `zbus`, the reading of
the clock and `String::push`; each such item says in its comment what is claimed.
