# ruffle_android

An embedded Flash player for Android. The host application talks to it through
native methods of `rs.ruffle.PlayerActivity`; the player core is Ruffle's.

`src/` decides, and Verus proves what it decides:

- `state`: what native methods and the event loop share, and what a new run forgets.
- `touch`: how touching the surface moves the cursor and clicks.
- `event_loop`: the commands for the player that each event leads to.
- `backend`: which renderer backend is used, and the sizes that it is given.
- `frame`: when the next frame is due.
- `custom_event`, `player_id`: events, and the players that tasks belong to.
- `navigator`: what a movie may reach outside the player.
- `crash`: what the host is told of a panic.
- `laws`: what holds across events.

`app/` does: it polls the system, calls the virtual machine and the player core, and
works out positions, which are floating-point numbers. The positions pass through
`src/` as values of a type parameter. `app/` builds for Android only.

`tests/` runs the library on any machine.
