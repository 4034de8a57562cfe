# snake_game

A networked snake game. `src/` is the verified game logic: the snake's
line stripe and how it moves (`snake`), the registries of observing
players and chat listeners (`clients`, `chat`), the wire messages
(`proto`), the routing of service calls (`service`) and the client's key
handling (`controls`). `app/` runs it: the gRPC server and the terminal
client (`app server --port 50051`, `app client`).
